use frame_lifecycle::pipeline::{
    pipeline_descriptor, vertex_layout, PipelineDescriptor, StepMode, Topology, VertexAttribute,
    VertexBufferLayout, VertexFormat, COLOR_LOCATION, COLOR_OFFSET, POSITION_LOCATION,
    POSITION_OFFSET, SAMPLE_COUNT, VERTEX_STRIDE,
};
use frame_lifecycle::surface::SurfaceFormat;

#[test]
fn float_formats_have_four_bytes_for_each_component() {
    assert_eq!(VertexFormat::Float32.size(), 4);
    assert_eq!(VertexFormat::Float32x2.size(), 8);
    assert_eq!(VertexFormat::Float32x3.size(), 12);
    assert_eq!(VertexFormat::Float32x4.size(), 16);
}

#[test]
fn layout_has_stride_of_one_vertex() {
    let layout: VertexBufferLayout = vertex_layout();
    assert_eq!(layout.array_stride, 32);
    assert_eq!(VERTEX_STRIDE, 32);
    assert_eq!(layout.array_stride as usize, std::mem::size_of::<[[f32; 4]; 2]>());
    assert_eq!(layout.step_mode, StepMode::Vertex);
}

#[test]
fn layout_declares_position_then_color() {
    let layout: VertexBufferLayout = vertex_layout();
    assert_eq!(
        layout.attributes,
        vec![
            VertexAttribute { format: VertexFormat::Float32x4, offset: 0, shader_location: 0 },
            VertexAttribute { format: VertexFormat::Float32x4, offset: 16, shader_location: 1 },
        ]
    );
    assert_eq!(POSITION_OFFSET, 0);
    assert_eq!(COLOR_OFFSET, 4 * 4);
    assert_eq!(POSITION_LOCATION, 0);
    assert_eq!(COLOR_LOCATION, 1);
}

#[test]
fn attributes_tile_the_stride() {
    let layout: VertexBufferLayout = vertex_layout();
    let mut end: u64 = 0;
    for attribute in &layout.attributes {
        assert_eq!(attribute.offset, end);
        end = attribute.offset + attribute.format.size();
    }
    assert_eq!(end, layout.array_stride);
}

#[test]
fn pipeline_is_the_fixed_state() {
    let descriptor: PipelineDescriptor = pipeline_descriptor(SurfaceFormat { id: 5 });
    assert_eq!(descriptor.vertex_entry, "vs_main");
    assert_eq!(descriptor.fragment_entry, "fs_main");
    assert_eq!(descriptor.vertex_layout, vertex_layout());
    assert_eq!(descriptor.target_format, SurfaceFormat { id: 5 });
    assert_eq!(descriptor.topology, Topology::TriangleList);
    assert_eq!(descriptor.cull_mode, None);
    assert!(!descriptor.depth_stencil);
    assert_eq!(descriptor.sample_count, 1);
    assert_eq!(SAMPLE_COUNT, 1);
}

#[test]
fn pipeline_target_follows_the_format() {
    assert_eq!(pipeline_descriptor(SurfaceFormat { id: 0 }).target_format.id, 0);
    assert_eq!(pipeline_descriptor(SurfaceFormat { id: 41 }).target_format.id, 41);
}
