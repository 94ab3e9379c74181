use frame_lifecycle::driver::{Driver, Phase};
use frame_lifecycle::negotiation::{adapter_options, device_request};
use frame_lifecycle::pipeline::pipeline_descriptor;
use frame_lifecycle::resources::{transform_buffer, triangle_buffer, uniform_bind_group};
use frame_lifecycle::setup::{Reply, Request, Setup, SetupError, Stage, STAGES};
use frame_lifecycle::surface::{Extent, SurfaceFormat};

const ORDER: [Stage; 10] = [
    Stage::RequestAdapter,
    Stage::RequestDevice,
    Stage::LoadShader,
    Stage::QueryFormats,
    Stage::BuildPipeline,
    Stage::CreateVertexBuffer,
    Stage::CreateUniformBuffer,
    Stage::CreateBindGroup,
    Stage::ConfigureSurface,
    Stage::Ready,
];

fn offered() -> Reply {
    Reply::Formats(vec![SurfaceFormat { id: 4 }, SurfaceFormat { id: 2 }])
}

fn good_reply(stage: Stage) -> Reply {
    match stage {
        Stage::QueryFormats => offered(),
        Stage::ConfigureSurface => Reply::Configured(SurfaceFormat { id: 4 }),
        _ => Reply::Done,
    }
}

fn setup_at(stage: Stage) -> Setup {
    let mut setup: Setup = Setup::new(800, 800);
    while setup.current() != Ok(stage) {
        let current: Stage = setup.current().unwrap();
        setup.advance(good_reply(current)).unwrap();
    }
    setup
}

#[test]
fn set_up_starts_with_the_adapter() {
    let setup: Setup = Setup::new(800, 800);
    assert_eq!(setup.current(), Ok(Stage::RequestAdapter));
    assert_eq!(setup.extent(), Extent { width: 800, height: 800 });
    assert_eq!(setup.format(), None);
    assert!(setup.driver().is_none());
}

#[test]
fn each_stage_asks_for_its_work() {
    let chosen = SurfaceFormat { id: 4 };
    assert_eq!(setup_at(Stage::RequestAdapter).request(), Request::Adapter(adapter_options()));
    assert_eq!(setup_at(Stage::RequestDevice).request(), Request::Device(device_request()));
    assert_eq!(setup_at(Stage::LoadShader).request(), Request::Shader);
    assert_eq!(setup_at(Stage::QueryFormats).request(), Request::Formats);
    assert_eq!(
        setup_at(Stage::BuildPipeline).request(),
        Request::Pipeline(pipeline_descriptor(chosen))
    );
    assert_eq!(setup_at(Stage::CreateVertexBuffer).request(), Request::Buffer(triangle_buffer()));
    assert_eq!(
        setup_at(Stage::CreateUniformBuffer).request(),
        Request::Buffer(transform_buffer())
    );
    assert_eq!(
        setup_at(Stage::CreateBindGroup).request(),
        Request::BindGroup(uniform_bind_group())
    );
    assert_eq!(
        setup_at(Stage::ConfigureSurface).request(),
        Request::Configure { extent: Extent { width: 800, height: 800 }, format: chosen }
    );
    assert_eq!(setup_at(Stage::Ready).request(), Request::Nothing);
}

#[test]
fn failed_set_up_asks_for_nothing() {
    let mut setup: Setup = setup_at(Stage::RequestDevice);
    assert_eq!(setup.advance(Reply::Failed), Err(SetupError::DeviceRejected));
    assert_eq!(setup.request(), Request::Nothing);
}

#[test]
fn first_configuration_has_the_clamped_size() {
    let mut setup: Setup = Setup::new(0, 0);
    while setup.current() != Ok(Stage::ConfigureSurface) {
        let current: Stage = setup.current().unwrap();
        setup.advance(good_reply(current)).unwrap();
    }
    assert_eq!(
        setup.request(),
        Request::Configure {
            extent: Extent { width: 1, height: 1 },
            format: SurfaceFormat { id: 4 }
        }
    );
}

#[test]
fn set_up_clamps_the_window_size() {
    assert_eq!(Setup::new(0, 0).extent(), Extent { width: 1, height: 1 });
    assert_eq!(Setup::new(0, 600).extent(), Extent { width: 1, height: 600 });
}

#[test]
fn stages_follow_one_another_in_order() {
    assert_eq!(STAGES, 9);
    let mut setup: Setup = Setup::new(800, 800);
    for position in 0..9 {
        assert_eq!(setup.current(), Ok(ORDER[position]));
        assert_eq!(ORDER[position].following(), ORDER[position + 1]);
        assert_eq!(setup.advance(good_reply(ORDER[position])), Ok(ORDER[position + 1]));
    }
    assert_eq!(setup.current(), Ok(Stage::Ready));
    assert_eq!(Stage::Ready.following(), Stage::Ready);
}

#[test]
fn ready_set_up_hands_out_the_driver() {
    let setup: Setup = setup_at(Stage::Ready);
    let driver: Driver = setup.driver().unwrap();
    assert_eq!(driver.phase(), Phase::Idle);
    assert_eq!(driver.extent(), Extent { width: 800, height: 800 });
}

#[test]
fn driver_is_withheld_until_ready() {
    for position in 0..9 {
        assert!(setup_at(ORDER[position]).driver().is_none());
    }
}

#[test]
fn ready_set_up_stays_ready() {
    let mut setup: Setup = setup_at(Stage::Ready);
    assert_eq!(setup.advance(Reply::Done), Ok(Stage::Ready));
    assert_eq!(setup.advance(Reply::Failed), Ok(Stage::Ready));
    assert_eq!(setup.advance(offered()), Ok(Stage::Ready));
    assert!(setup.driver().is_some());
}

#[test]
fn first_offered_format_becomes_the_pipeline_target() {
    let mut setup: Setup = setup_at(Stage::QueryFormats);
    assert_eq!(setup.format(), None);
    assert_eq!(setup.advance(offered()), Ok(Stage::BuildPipeline));
    assert_eq!(setup.format(), Some(SurfaceFormat { id: 4 }));
    assert_eq!(setup.request(), Request::Pipeline(pipeline_descriptor(SurfaceFormat { id: 4 })));
    assert_eq!(setup_at(Stage::Ready).format(), Some(SurfaceFormat { id: 4 }));
}

#[test]
fn missing_adapter_is_fatal() {
    let mut setup: Setup = Setup::new(800, 800);
    assert_eq!(setup.advance(Reply::Failed), Err(SetupError::NoAdapter));
    assert_eq!(setup.current(), Err(SetupError::NoAdapter));
}

#[test]
fn rejected_device_is_fatal() {
    let mut setup: Setup = setup_at(Stage::RequestDevice);
    assert_eq!(setup.advance(Reply::Failed), Err(SetupError::DeviceRejected));
    assert_eq!(setup.current(), Err(SetupError::DeviceRejected));
}

#[test]
fn rejected_shader_or_pipeline_is_a_mismatch() {
    let mut shader: Setup = setup_at(Stage::LoadShader);
    assert_eq!(shader.advance(Reply::Failed), Err(SetupError::PipelineMismatch));
    let mut pipeline: Setup = setup_at(Stage::BuildPipeline);
    assert_eq!(pipeline.advance(Reply::Failed), Err(SetupError::PipelineMismatch));
    assert_eq!(pipeline.format(), Some(SurfaceFormat { id: 4 }));
}

#[test]
fn rejected_resource_is_fatal() {
    for stage in [Stage::CreateVertexBuffer, Stage::CreateUniformBuffer, Stage::CreateBindGroup] {
        let mut setup: Setup = setup_at(stage);
        assert_eq!(setup.advance(Reply::Failed), Err(SetupError::ResourceRejected));
    }
}

#[test]
fn surface_without_formats_is_unsupported() {
    let mut empty: Setup = setup_at(Stage::QueryFormats);
    assert_eq!(empty.advance(Reply::Formats(Vec::new())), Err(SetupError::SurfaceUnsupported));
    assert_eq!(empty.format(), None);
    assert_eq!(empty.request(), Request::Nothing);
    let mut failed: Setup = setup_at(Stage::QueryFormats);
    assert_eq!(failed.advance(Reply::Failed), Err(SetupError::SurfaceUnsupported));
    let mut unanswered: Setup = setup_at(Stage::QueryFormats);
    assert_eq!(unanswered.advance(Reply::Done), Err(SetupError::SurfaceUnsupported));
}

#[test]
fn surface_that_cannot_be_configured_is_unsupported() {
    let mut setup: Setup = setup_at(Stage::ConfigureSurface);
    assert_eq!(setup.advance(Reply::Failed), Err(SetupError::SurfaceUnsupported));
    assert!(setup.driver().is_none());
}

#[test]
fn surface_configured_with_another_format_is_refused() {
    let mut setup: Setup = setup_at(Stage::ConfigureSurface);
    assert_eq!(
        setup.advance(Reply::Configured(SurfaceFormat { id: 2 })),
        Err(SetupError::SurfaceUnsupported)
    );
    assert!(setup.driver().is_none());
}

#[test]
fn surface_is_configured_with_the_pipeline_format() {
    let mut setup: Setup = setup_at(Stage::ConfigureSurface);
    let target: SurfaceFormat = match setup_at(Stage::BuildPipeline).request() {
        Request::Pipeline(descriptor) => descriptor.target_format,
        other => panic!("the pipeline is asked for, not {:?}", other),
    };
    assert_eq!(setup.advance(Reply::Configured(target)), Ok(Stage::Ready));
    assert_eq!(setup.format(), Some(target));
    assert!(setup.driver().is_some());
}

#[test]
fn configuration_needs_its_own_reply() {
    let mut done: Setup = setup_at(Stage::ConfigureSurface);
    assert_eq!(done.advance(Reply::Done), Err(SetupError::SurfaceUnsupported));
    let mut early: Setup = setup_at(Stage::BuildPipeline);
    assert_eq!(
        early.advance(Reply::Configured(SurfaceFormat { id: 4 })),
        Err(SetupError::PipelineMismatch)
    );
}

#[test]
fn formats_do_not_answer_another_stage() {
    let mut setup: Setup = Setup::new(800, 800);
    assert_eq!(setup.advance(offered()), Err(SetupError::NoAdapter));
    assert_eq!(setup.format(), None);
}

#[test]
fn failure_is_final() {
    let mut setup: Setup = setup_at(Stage::RequestDevice);
    assert_eq!(setup.advance(Reply::Failed), Err(SetupError::DeviceRejected));
    assert_eq!(setup.advance(Reply::Done), Err(SetupError::DeviceRejected));
    assert_eq!(setup.advance(offered()), Err(SetupError::DeviceRejected));
    assert_eq!(setup.advance(Reply::Failed), Err(SetupError::DeviceRejected));
    assert_eq!(setup.current(), Err(SetupError::DeviceRejected));
    assert!(setup.driver().is_none());
}

#[test]
fn each_stage_has_its_failure() {
    assert_eq!(Stage::RequestAdapter.failure_kind(), Some(SetupError::NoAdapter));
    assert_eq!(Stage::RequestDevice.failure_kind(), Some(SetupError::DeviceRejected));
    assert_eq!(Stage::LoadShader.failure_kind(), Some(SetupError::PipelineMismatch));
    assert_eq!(Stage::QueryFormats.failure_kind(), Some(SetupError::SurfaceUnsupported));
    assert_eq!(Stage::BuildPipeline.failure_kind(), Some(SetupError::PipelineMismatch));
    assert_eq!(Stage::CreateVertexBuffer.failure_kind(), Some(SetupError::ResourceRejected));
    assert_eq!(Stage::CreateUniformBuffer.failure_kind(), Some(SetupError::ResourceRejected));
    assert_eq!(Stage::CreateBindGroup.failure_kind(), Some(SetupError::ResourceRejected));
    assert_eq!(Stage::ConfigureSurface.failure_kind(), Some(SetupError::SurfaceUnsupported));
    assert_eq!(Stage::Ready.failure_kind(), None);
}

#[test]
fn failures_are_reported_in_words() {
    assert_eq!(SetupError::NoAdapter.message(), "Failed to find an appropriate adapter");
    assert_eq!(SetupError::DeviceRejected.message(), "Failed to create device");
    assert_eq!(SetupError::PipelineMismatch.message(), "Failed to build the render pipeline");
    assert_eq!(SetupError::ResourceRejected.message(), "Failed to create a GPU resource");
    assert_eq!(SetupError::SurfaceUnsupported.message(), "Failed to configure the surface");
}
