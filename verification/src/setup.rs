//! Set-up: the stages that lead from a bare surface to a running frame
//! loop, in the order in which each needs what the ones before it made.
//!
//! The adapter and the device come first; the pipeline needs the device and
//! the format of the surface; the buffers need the device; the bind group
//! needs the pipeline and the uniform buffer; the surface is configured
//! last, with the format the pipeline draws to. A stage that fails ends the
//! set-up for good, with the kind of its failure.

use crate::driver::{Driver, LoopState, Phase};
use crate::geometry::{start_transform, triangle, vertices_words};
use crate::negotiation::{
    adapter_options, device_request, wanted_adapter, wanted_device, AdapterOptions, DeviceRequest,
};
use crate::pipeline::{pipeline_descriptor, PipelineDescriptor};
use crate::resources::{
    transform_buffer, triangle_buffer, uniform_bind_group, BindGroupDescriptor, BufferInit,
    BufferRole,
};
use crate::surface::{choose_format, preferred, Extent, SurfaceFormat};
use vstd::prelude::*;

verus! {

/// Number of stages before the loop can run.
pub const STAGES: usize = 9;

/// One stage of the set-up, named by what is performed in it.
#[derive(Clone, Copy, Debug, PartialEq, Eq, Structural)]
pub enum Stage {
    /// Find an adapter that can present to the surface.
    RequestAdapter,
    /// Open a device and its queue on the adapter.
    RequestDevice,
    /// Compile the shader program.
    LoadShader,
    /// Ask which formats the surface offers with the adapter.
    QueryFormats,
    /// Build the render pipeline.
    BuildPipeline,
    /// Create the vertex buffer with its contents.
    CreateVertexBuffer,
    /// Create the uniform buffer with its contents.
    CreateUniformBuffer,
    /// Create the bind group of the uniform buffer.
    CreateBindGroup,
    /// Give the surface its first configuration.
    ConfigureSurface,
    /// Nothing is left to do: the frame loop can run.
    Ready,
}

/// Why the set-up ended early.
#[derive(Clone, Copy, Debug, PartialEq, Eq, Structural)]
pub enum SetupError {
    /// No adapter can present to the surface.
    NoAdapter,
    /// The adapter refused the device that was asked for.
    DeviceRejected,
    /// The shader program and the pipeline state do not fit together.
    PipelineMismatch,
    /// The device refused a buffer or the bind group.
    ResourceRejected,
    /// The surface offers nothing to configure it with.
    SurfaceUnsupported,
}

/// The work of a stage, with all that is needed to perform it.
#[derive(Clone, Debug, PartialEq, Eq)]
pub enum Request {
    /// Ask the instance for an adapter.
    Adapter(AdapterOptions),
    /// Ask the adapter for a device and its queue.
    Device(DeviceRequest),
    /// Compile the shader program.
    Shader,
    /// Ask the surface which formats it offers with the adapter.
    Formats,
    /// Build the render pipeline.
    Pipeline(PipelineDescriptor),
    /// Create a buffer with its contents.
    Buffer(BufferInit),
    /// Create a bind group on the pipeline's layout.
    BindGroup(BindGroupDescriptor),
    /// Take the default configuration of the surface for this size, which
    /// has this format, and configure the surface with it.
    Configure { extent: Extent, format: SurfaceFormat },
    /// There is no work: the set-up is ready, or it has failed.
    Nothing,
}

/// What came of the work of a stage.
#[derive(Clone, Debug, PartialEq, Eq)]
pub enum Reply {
    /// The work was done.
    Done,
    /// The work could not be done.
    Failed,
    /// The formats the surface offers, in its order.
    Formats(Vec<SurfaceFormat>),
    /// The surface has been configured, with this format.
    Configured(SurfaceFormat),
}

/// A reply, with its formats as a sequence.
pub enum ReplyView {
    Done,
    Failed,
    Formats(Seq<SurfaceFormat>),
    Configured(SurfaceFormat),
}

impl View for Reply {
    type V = ReplyView;

    open spec fn view(&self) -> ReplyView {
        match self {
            Reply::Done => ReplyView::Done,
            Reply::Failed => ReplyView::Failed,
            Reply::Formats(formats) => ReplyView::Formats(formats@),
            Reply::Configured(format) => ReplyView::Configured(*format),
        }
    }
}

impl Stage {
    /// Position of the stage in the order of the set-up.
    pub open spec fn index(self) -> nat {
        match self {
            Stage::RequestAdapter => 0,
            Stage::RequestDevice => 1,
            Stage::LoadShader => 2,
            Stage::QueryFormats => 3,
            Stage::BuildPipeline => 4,
            Stage::CreateVertexBuffer => 5,
            Stage::CreateUniformBuffer => 6,
            Stage::CreateBindGroup => 7,
            Stage::ConfigureSurface => 8,
            Stage::Ready => 9,
        }
    }

    /// The stage that follows this one. Nothing follows `Ready`.
    pub open spec fn next(self) -> Stage {
        match self {
            Stage::RequestAdapter => Stage::RequestDevice,
            Stage::RequestDevice => Stage::LoadShader,
            Stage::LoadShader => Stage::QueryFormats,
            Stage::QueryFormats => Stage::BuildPipeline,
            Stage::BuildPipeline => Stage::CreateVertexBuffer,
            Stage::CreateVertexBuffer => Stage::CreateUniformBuffer,
            Stage::CreateUniformBuffer => Stage::CreateBindGroup,
            Stage::CreateBindGroup => Stage::ConfigureSurface,
            Stage::ConfigureSurface => Stage::Ready,
            Stage::Ready => Stage::Ready,
        }
    }

    /// The kind of failure when this stage cannot be done. `Ready` has no
    /// work and so no failure.
    pub open spec fn failure(self) -> Option<SetupError> {
        match self {
            Stage::RequestAdapter => Some(SetupError::NoAdapter),
            Stage::RequestDevice => Some(SetupError::DeviceRejected),
            Stage::LoadShader => Some(SetupError::PipelineMismatch),
            Stage::QueryFormats => Some(SetupError::SurfaceUnsupported),
            Stage::BuildPipeline => Some(SetupError::PipelineMismatch),
            Stage::CreateVertexBuffer => Some(SetupError::ResourceRejected),
            Stage::CreateUniformBuffer => Some(SetupError::ResourceRejected),
            Stage::CreateBindGroup => Some(SetupError::ResourceRejected),
            Stage::ConfigureSurface => Some(SetupError::SurfaceUnsupported),
            Stage::Ready => None,
        }
    }

    /// The stage that follows this one.
    pub fn following(self) -> (stage: Stage)
        ensures
            stage == self.next(),
    {
        match self {
            Stage::RequestAdapter => Stage::RequestDevice,
            Stage::RequestDevice => Stage::LoadShader,
            Stage::LoadShader => Stage::QueryFormats,
            Stage::QueryFormats => Stage::BuildPipeline,
            Stage::BuildPipeline => Stage::CreateVertexBuffer,
            Stage::CreateVertexBuffer => Stage::CreateUniformBuffer,
            Stage::CreateUniformBuffer => Stage::CreateBindGroup,
            Stage::CreateBindGroup => Stage::ConfigureSurface,
            Stage::ConfigureSurface => Stage::Ready,
            Stage::Ready => Stage::Ready,
        }
    }

    /// The kind of failure when this stage cannot be done, if it has one.
    pub fn failure_kind(self) -> (error: Option<SetupError>)
        ensures
            error == self.failure(),
    {
        match self {
            Stage::RequestAdapter => Some(SetupError::NoAdapter),
            Stage::RequestDevice => Some(SetupError::DeviceRejected),
            Stage::LoadShader => Some(SetupError::PipelineMismatch),
            Stage::QueryFormats => Some(SetupError::SurfaceUnsupported),
            Stage::BuildPipeline => Some(SetupError::PipelineMismatch),
            Stage::CreateVertexBuffer => Some(SetupError::ResourceRejected),
            Stage::CreateUniformBuffer => Some(SetupError::ResourceRejected),
            Stage::CreateBindGroup => Some(SetupError::ResourceRejected),
            Stage::ConfigureSurface => Some(SetupError::SurfaceUnsupported),
            Stage::Ready => None,
        }
    }
}

impl SetupError {
    /// The words the failure is reported with.
    pub open spec fn text(self) -> Seq<char> {
        match self {
            SetupError::NoAdapter => "Failed to find an appropriate adapter"@,
            SetupError::DeviceRejected => "Failed to create device"@,
            SetupError::PipelineMismatch => "Failed to build the render pipeline"@,
            SetupError::ResourceRejected => "Failed to create a GPU resource"@,
            SetupError::SurfaceUnsupported => "Failed to configure the surface"@,
        }
    }

    /// The words the failure is reported with.
    pub fn message(self) -> (words: &'static str)
        ensures
            words@ == self.text(),
    {
        match self {
            SetupError::NoAdapter => "Failed to find an appropriate adapter",
            SetupError::DeviceRejected => "Failed to create device",
            SetupError::PipelineMismatch => "Failed to build the render pipeline",
            SetupError::ResourceRejected => "Failed to create a GPU resource",
            SetupError::SurfaceUnsupported => "Failed to configure the surface",
        }
    }
}

/// How far the set-up has come.
pub struct SetupState {
    /// The stage to perform next, or the one that failed.
    pub stage: Stage,
    /// The size the surface is to be configured with.
    pub extent: Extent,
    /// The format chosen for the surface, once its formats are known: the
    /// one the pipeline draws to.
    pub format: Option<SurfaceFormat>,
    /// The format the surface is configured with, once it is configured.
    pub configured: Option<SurfaceFormat>,
    /// The failure that ended the set-up, if one did.
    pub failure: Option<SetupError>,
}

impl SetupState {
    /// The size is one a surface accepts, a format has been chosen by the
    /// time the pipeline is built, and a surface that is configured has
    /// the format the pipeline draws to.
    pub open spec fn valid(self) -> bool {
        &&& self.extent.valid()
        &&& self.stage.index() > Stage::QueryFormats.index() ==> self.format is Some
        &&& self.stage == Stage::Ready ==> self.failure is None
        &&& if self.stage == Stage::Ready {
            self.configured is Some && self.configured == self.format
        } else {
            self.configured is None
        }
    }

    /// The set-up is over and the frame loop can run.
    pub open spec fn ready(self) -> bool {
        self.stage == Stage::Ready && self.failure is None
    }
}

/// The state before the first stage, for a window of the given size.
pub open spec fn initial(width: u32, height: u32) -> SetupState {
    SetupState {
        stage: Stage::RequestAdapter,
        extent: Extent::of_request(width, height),
        format: None,
        configured: None,
        failure: None,
    }
}

/// The state the set-up is left in when its current stage fails.
pub open spec fn failed(state: SetupState) -> SetupState {
    SetupState { failure: state.stage.failure(), ..state }
}

/// The state after the reply to the current stage.
///
/// A set-up that has failed stays as it is, and so does one that is ready.
/// The stage that asks for the formats is done when the reply holds at
/// least one format, and the first is chosen. The stage that configures the
/// surface is done when the surface is configured with the chosen format.
/// Every other stage is done on `Done`. Any other reply fails the stage.
pub open spec fn after(state: SetupState, reply: ReplyView) -> SetupState {
    if state.failure is Some || state.stage == Stage::Ready {
        state
    } else if state.stage == Stage::QueryFormats {
        match reply {
            ReplyView::Formats(formats) => match preferred(formats) {
                Some(format) => SetupState {
                    stage: state.stage.next(),
                    format: Some(format),
                    ..state
                },
                None => failed(state),
            },
            _ => failed(state),
        }
    } else if state.stage == Stage::ConfigureSurface {
        match reply {
            ReplyView::Configured(format) if Some(format) == state.format => SetupState {
                stage: state.stage.next(),
                configured: Some(format),
                ..state
            },
            _ => failed(state),
        }
    } else {
        match reply {
            ReplyView::Done => SetupState { stage: state.stage.next(), ..state },
            _ => failed(state),
        }
    }
}

/// `request` is the work of the current stage of `state`, with what the
/// stage is to be performed with.
pub open spec fn asks(state: SetupState, request: Request) -> bool {
    if state.failure is Some {
        request is Nothing
    } else {
        match state.stage {
            Stage::RequestAdapter => request == Request::Adapter(wanted_adapter()),
            Stage::RequestDevice => request == Request::Device(wanted_device()),
            Stage::LoadShader => request is Shader,
            Stage::QueryFormats => request is Formats,
            Stage::BuildPipeline => {
                &&& request matches Request::Pipeline(descriptor)
                &&& state.format matches Some(format)
                &&& descriptor.draws_to(format)
            },
            Stage::CreateVertexBuffer => {
                &&& request matches Request::Buffer(init)
                &&& init.holds(BufferRole::Vertex, vertices_words(triangle()))
            },
            Stage::CreateUniformBuffer => {
                &&& request matches Request::Buffer(init)
                &&& init.holds(BufferRole::Uniform, start_transform().words())
            },
            Stage::CreateBindGroup => {
                &&& request matches Request::BindGroup(descriptor)
                &&& descriptor.binds_transform()
            },
            Stage::ConfigureSurface => {
                &&& request matches Request::Configure { extent, format }
                &&& extent == state.extent
                &&& Some(format) == state.format
            },
            Stage::Ready => request is Nothing,
        }
    }
}

/// What the set-up answers in a state: the stage to perform next, or the
/// failure that ended it.
pub open spec fn answer(state: SetupState) -> Result<Stage, SetupError> {
    match state.failure {
        Some(error) => Err(error),
        None => Ok(state.stage),
    }
}

/// The state after a run of replies, each to the stage the one before it
/// led to.
pub open spec fn after_all(state: SetupState, replies: Seq<ReplyView>) -> SetupState
    decreases replies.len(),
{
    if replies.len() == 0 {
        state
    } else {
        after(after_all(state, replies.drop_last()), replies.last())
    }
}

/// The set-up of the renderer.
pub struct Setup {
    stage: Stage,
    extent: Extent,
    format: Option<SurfaceFormat>,
    configured: Option<SurfaceFormat>,
    failure: Option<SetupError>,
}

impl View for Setup {
    type V = SetupState;

    closed spec fn view(&self) -> SetupState {
        SetupState {
            stage: self.stage,
            extent: self.extent,
            format: self.format,
            configured: self.configured,
            failure: self.failure,
        }
    }
}

impl Setup {
    #[verifier::type_invariant]
    spec fn well_formed(self) -> bool {
        self@.valid()
    }

    /// A set-up at its first stage, for a window of the given size. The
    /// size is clamped, so a window without area still gets a surface.
    pub fn new(width: u32, height: u32) -> (setup: Setup)
        ensures
            setup@ == initial(width, height),
            setup@.valid(),
    {
        Setup {
            stage: Stage::RequestAdapter,
            extent: Extent::clamped(width, height),
            format: None,
            configured: None,
            failure: None,
        }
    }

    /// The stage to perform next, or the failure that ended the set-up.
    pub fn current(&self) -> (result: Result<Stage, SetupError>)
        ensures
            result == answer(self@),
    {
        match self.failure {
            Some(error) => Err(error),
            None => Ok(self.stage),
        }
    }

    /// The size to configure the surface with. Neither side is zero.
    pub fn extent(&self) -> (extent: Extent)
        ensures
            extent == self@.extent,
            extent.valid(),
    {
        proof {
            use_type_invariant(self);
        }
        self.extent
    }

    /// The format chosen for the surface; none before the surface has been
    /// asked.
    pub fn format(&self) -> (format: Option<SurfaceFormat>)
        ensures
            format == self@.format,
            self@.stage.index() > Stage::QueryFormats.index() ==> format is Some,
    {
        proof {
            use_type_invariant(self);
        }
        self.format
    }

    /// Ends the set-up with the failure of the current stage.
    fn fail(&mut self) -> (result: Result<Stage, SetupError>)
        requires
            old(self)@.failure is None,
            old(self)@.stage != Stage::Ready,
        ensures
            final(self)@ == failed(old(self)@),
            result == answer(final(self)@),
            result is Err,
    {
        proof {
            use_type_invariant(&*self);
        }
        match self.stage.failure_kind() {
            Some(error) => {
                self.failure = Some(error);
                Err(error)
            },
            None => Ok(self.stage),
        }
    }

    /// Takes the reply to the current stage and answers with the stage to
    /// perform next, or with the failure that ends the set-up.
    pub fn advance(&mut self, reply: Reply) -> (result: Result<Stage, SetupError>)
        ensures
            final(self)@ == after(old(self)@, reply@),
            result == answer(final(self)@),
            final(self)@.valid(),
    {
        proof {
            use_type_invariant(&*self);
        }
        if let Some(error) = self.failure {
            return Err(error);
        }
        let next = self.stage.following();
        match (self.stage, reply) {
            (Stage::Ready, _) => Ok(Stage::Ready),
            (Stage::QueryFormats, Reply::Formats(formats)) => {
                match choose_format(formats.as_slice()) {
                    Some(format) => {
                        self.format = Some(format);
                        self.stage = next;
                        Ok(next)
                    },
                    None => self.fail(),
                }
            },
            (Stage::QueryFormats, _) => self.fail(),
            (Stage::ConfigureSurface, Reply::Configured(format)) => {
                match self.format {
                    Some(chosen) if chosen.id == format.id => {
                        *self = Setup {
                            stage: next,
                            extent: self.extent,
                            format: self.format,
                            configured: Some(format),
                            failure: None,
                        };
                        Ok(next)
                    },
                    _ => self.fail(),
                }
            },
            (Stage::ConfigureSurface, _) => self.fail(),
            (_, Reply::Done) => {
                self.stage = next;
                Ok(next)
            },
            _ => self.fail(),
        }
    }

    /// The work of the current stage, with all that is needed to perform
    /// it.
    pub fn request(&self) -> (request: Request)
        ensures
            asks(self@, request),
    {
        proof {
            use_type_invariant(self);
        }
        if self.failure.is_some() {
            return Request::Nothing;
        }
        match (self.stage, self.format) {
            (Stage::RequestAdapter, _) => Request::Adapter(adapter_options()),
            (Stage::RequestDevice, _) => Request::Device(device_request()),
            (Stage::LoadShader, _) => Request::Shader,
            (Stage::QueryFormats, _) => Request::Formats,
            (Stage::BuildPipeline, Some(format)) => Request::Pipeline(pipeline_descriptor(format)),
            (Stage::CreateVertexBuffer, _) => Request::Buffer(triangle_buffer()),
            (Stage::CreateUniformBuffer, _) => Request::Buffer(transform_buffer()),
            (Stage::CreateBindGroup, _) => Request::BindGroup(uniform_bind_group()),
            (Stage::ConfigureSurface, Some(format)) => Request::Configure {
                extent: self.extent,
                format,
            },
            _ => Request::Nothing,
        }
    }

    /// The driver of the frame loop, once the set-up is ready: it waits for
    /// its first event, on the surface as the set-up configured it.
    pub fn driver(&self) -> (driver: Option<Driver>)
        ensures
            driver is Some <==> self@.ready(),
            driver matches Some(d) ==> d@ == (LoopState {
                phase: Phase::Idle,
                extent: self@.extent,
            }),
    {
        proof {
            use_type_invariant(self);
        }
        match (self.stage, self.failure) {
            (Stage::Ready, None) => Some(Driver::new(self.extent.width, self.extent.height)),
            _ => None,
        }
    }
}

/// The stages follow the flow of what they make: each stage but the last
/// leads to the one right behind it, the context is negotiated before
/// anything is built on it, the pipeline is built once the format is known,
/// the resources follow, and the surface is configured last.
pub proof fn lemma_stages_follow_data_flow(stage: Stage)
    ensures
        stage != Stage::Ready ==> stage.next().index() == stage.index() + 1,
        stage.index() <= STAGES,
        stage.index() == STAGES <==> stage == Stage::Ready,
        stage.failure() is None <==> stage == Stage::Ready,
        Stage::RequestAdapter.index() < Stage::RequestDevice.index() < Stage::LoadShader.index(),
        Stage::LoadShader.index() < Stage::QueryFormats.index() < Stage::BuildPipeline.index(),
        Stage::BuildPipeline.index() < Stage::CreateVertexBuffer.index()
            < Stage::CreateUniformBuffer.index(),
        Stage::CreateUniformBuffer.index() < Stage::CreateBindGroup.index()
            < Stage::ConfigureSurface.index() < Stage::Ready.index(),
{
}

/// A failure is final: a set-up that has failed takes no further reply, so
/// nothing is tried again.
pub proof fn lemma_failure_is_final(state: SetupState, replies: Seq<ReplyView>)
    requires
        state.failure is Some,
    ensures
        after_all(state, replies) == state,
    decreases replies.len(),
{
    if replies.len() > 0 {
        lemma_failure_is_final(state, replies.drop_last());
    }
}

/// A stage that cannot be done ends the set-up with the failure of that
/// stage, and the stage is not left.
pub proof fn lemma_failed_stage_fails_setup(state: SetupState)
    requires
        state.failure is None,
        state.stage != Stage::Ready,
    ensures
        after(state, ReplyView::Failed).failure == state.stage.failure(),
        after(state, ReplyView::Failed).failure is Some,
        after(state, ReplyView::Failed).stage == state.stage,
        answer(after(state, ReplyView::Failed)) is Err,
{
}

/// The state after the first `n + 1` replies is the state after the first
/// `n`, taken one reply further.
pub proof fn lemma_after_all_unfolds(state: SetupState, replies: Seq<ReplyView>, n: int)
    requires
        0 <= n < replies.len(),
    ensures
        after_all(state, replies.take(n + 1)) == after(
            after_all(state, replies.take(n)),
            replies[n],
        ),
{
    assert(replies.take(n + 1).drop_last() =~= replies.take(n));
    assert(replies.take(n + 1).last() == replies[n]);
}

/// Where every stage is done and the surface offers a format, the set-up
/// is ready after its nine replies: the first format offered is the one
/// chosen, for the pipeline and for the surface alike, and the size is the
/// clamped size of the window.
pub proof fn lemma_all_done_is_ready(width: u32, height: u32, formats: Seq<SurfaceFormat>)
    requires
        formats.len() > 0,
    ensures
        after_all(
            initial(width, height),
            seq![
                ReplyView::Done,
                ReplyView::Done,
                ReplyView::Done,
                ReplyView::Formats(formats),
                ReplyView::Done,
                ReplyView::Done,
                ReplyView::Done,
                ReplyView::Done,
                ReplyView::Configured(formats[0]),
            ],
        ) == (SetupState {
            stage: Stage::Ready,
            extent: Extent::of_request(width, height),
            format: Some(formats[0]),
            configured: Some(formats[0]),
            failure: None,
        }),
{
    let replies = seq![
        ReplyView::Done,
        ReplyView::Done,
        ReplyView::Done,
        ReplyView::Formats(formats),
        ReplyView::Done,
        ReplyView::Done,
        ReplyView::Done,
        ReplyView::Done,
        ReplyView::Configured(formats[0]),
    ];
    let start = initial(width, height);
    assert(replies.take(0) =~= Seq::<ReplyView>::empty());
    assert(after_all(start, replies.take(0)) == start);
    lemma_after_all_unfolds(start, replies, 0);
    assert(after_all(start, replies.take(1)).stage == Stage::RequestDevice);
    lemma_after_all_unfolds(start, replies, 1);
    assert(after_all(start, replies.take(2)).stage == Stage::LoadShader);
    lemma_after_all_unfolds(start, replies, 2);
    assert(after_all(start, replies.take(3)).stage == Stage::QueryFormats);
    lemma_after_all_unfolds(start, replies, 3);
    assert(after_all(start, replies.take(4)).stage == Stage::BuildPipeline);
    lemma_after_all_unfolds(start, replies, 4);
    assert(after_all(start, replies.take(5)).stage == Stage::CreateVertexBuffer);
    lemma_after_all_unfolds(start, replies, 5);
    assert(after_all(start, replies.take(6)).stage == Stage::CreateUniformBuffer);
    lemma_after_all_unfolds(start, replies, 6);
    assert(after_all(start, replies.take(7)).stage == Stage::CreateBindGroup);
    lemma_after_all_unfolds(start, replies, 7);
    assert(after_all(start, replies.take(8)).stage == Stage::ConfigureSurface);
    lemma_after_all_unfolds(start, replies, 8);
    assert(replies.take(9) =~= replies);
}

/// Once the set-up is ready, the surface is configured with the very
/// format that the pipeline draws to.
pub proof fn lemma_ready_formats_agree(state: SetupState)
    requires
        state.valid(),
        state.ready(),
    ensures
        state.format is Some,
        state.configured == state.format,
{
}

/// A surface configured with another format than the pipeline draws to
/// fails the set-up: such a pair is never run.
pub proof fn lemma_other_format_fails(state: SetupState, format: SurfaceFormat)
    requires
        state.failure is None,
        state.stage == Stage::ConfigureSurface,
        state.format != Some(format),
    ensures
        after(state, ReplyView::Configured(format)).failure == Some(SetupError::SurfaceUnsupported),
        !after(state, ReplyView::Configured(format)).ready(),
{
}

/// A reply keeps the state sound.
pub proof fn lemma_after_keeps_valid(state: SetupState, reply: ReplyView)
    requires
        state.valid(),
    ensures
        after(state, reply).valid(),
{
}

} // verus!
