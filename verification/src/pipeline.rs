//! The pipeline: how a vertex buffer is read, and what the fixed pipeline
//! state is.
//!
//! The vertex layout is a contract shared with the shader program and with
//! the vertex data. It is stated here once, and proved to describe exactly
//! the bytes that the vertex buffer holds.

use crate::bytes::{is_image_of, words_bytes, ByteOrder};
use crate::geometry::{vertices_words, Vertex};
use crate::surface::SurfaceFormat;
use vstd::prelude::*;

verus! {

/// Bytes from one vertex to the next in the vertex buffer.
pub const VERTEX_STRIDE: u64 = 32;

/// Byte offset of the position within a vertex.
pub const POSITION_OFFSET: u64 = 0;

/// Byte offset of the color within a vertex.
pub const COLOR_OFFSET: u64 = 16;

/// Shader location of the position.
pub const POSITION_LOCATION: u32 = 0;

/// Shader location of the color.
pub const COLOR_LOCATION: u32 = 1;

/// Number of samples per pixel.
pub const SAMPLE_COUNT: u32 = 1;

/// Format of one vertex attribute: one to four 32-bit floats.
#[derive(Clone, Copy, Debug, PartialEq, Eq, Structural)]
pub enum VertexFormat {
    Float32,
    Float32x2,
    Float32x3,
    Float32x4,
}

impl VertexFormat {
    /// Number of bytes an attribute of this format occupies.
    pub open spec fn byte_size(self) -> u64 {
        match self {
            VertexFormat::Float32 => 4,
            VertexFormat::Float32x2 => 8,
            VertexFormat::Float32x3 => 12,
            VertexFormat::Float32x4 => 16,
        }
    }

    /// Number of bytes an attribute of this format occupies.
    pub fn size(self) -> (bytes: u64)
        ensures
            bytes == self.byte_size(),
    {
        match self {
            VertexFormat::Float32 => 4,
            VertexFormat::Float32x2 => 8,
            VertexFormat::Float32x3 => 12,
            VertexFormat::Float32x4 => 16,
        }
    }
}

/// Whether the buffer advances once for each vertex or once for each
/// instance.
#[derive(Clone, Copy, Debug, PartialEq, Eq, Structural)]
pub enum StepMode {
    Vertex,
    Instance,
}

/// How vertices are assembled into primitives.
#[derive(Clone, Copy, Debug, PartialEq, Eq, Structural)]
pub enum Topology {
    PointList,
    LineList,
    LineStrip,
    TriangleList,
    TriangleStrip,
}

/// The face of a triangle that culling removes.
#[derive(Clone, Copy, Debug, PartialEq, Eq, Structural)]
pub enum Face {
    Front,
    Back,
}

/// One input of the vertex stage and where it lies within a vertex.
#[derive(Clone, Copy, Debug, PartialEq, Eq, Structural)]
pub struct VertexAttribute {
    pub format: VertexFormat,
    pub offset: u64,
    pub shader_location: u32,
}

/// How the vertex stage reads one vertex buffer.
#[derive(Clone, Debug, PartialEq, Eq)]
pub struct VertexBufferLayout {
    pub array_stride: u64,
    pub step_mode: StepMode,
    pub attributes: Vec<VertexAttribute>,
}

/// The fixed state of the render pipeline.
#[derive(Clone, Debug, PartialEq, Eq)]
pub struct PipelineDescriptor {
    /// Entry point of the vertex stage in the shader program.
    pub vertex_entry: &'static str,
    /// Entry point of the fragment stage in the shader program.
    pub fragment_entry: &'static str,
    /// Layout of the one vertex buffer.
    pub vertex_layout: VertexBufferLayout,
    /// Format of the one color target.
    pub target_format: SurfaceFormat,
    pub topology: Topology,
    /// The face that is culled, if any.
    pub cull_mode: Option<Face>,
    /// Whether the pipeline has a depth and stencil attachment.
    pub depth_stencil: bool,
    pub sample_count: u32,
}

/// The two attributes of a vertex: the position at the start, the color
/// right behind it, four floats each.
pub open spec fn vertex_attributes() -> Seq<VertexAttribute> {
    seq![
        VertexAttribute {
            format: VertexFormat::Float32x4,
            offset: POSITION_OFFSET,
            shader_location: POSITION_LOCATION,
        },
        VertexAttribute {
            format: VertexFormat::Float32x4,
            offset: COLOR_OFFSET,
            shader_location: COLOR_LOCATION,
        },
    ]
}

/// The words of the field of `vertex` that feeds the given shader location.
pub open spec fn attribute_words(vertex: Vertex, shader_location: u32) -> Seq<u32> {
    if shader_location == POSITION_LOCATION {
        vertex.position.words()
    } else {
        vertex.color.words()
    }
}

/// The bytes that the vertex stage reads for `attribute` of the vertex at
/// `index`, from a buffer with the given stride.
pub open spec fn attribute_bytes(
    buffer: Seq<u8>,
    stride: u64,
    attribute: VertexAttribute,
    index: int,
) -> Seq<u8> {
    let start = index * stride + attribute.offset;
    buffer.subrange(start, start + attribute.format.byte_size())
}

/// The attributes lie inside one stride, in order, and leave no byte of it
/// unused.
pub open spec fn tiles(attributes: Seq<VertexAttribute>, stride: u64) -> bool {
    &&& attributes.len() > 0
    &&& attributes[0].offset == 0
    &&& forall|k: int|
        0 <= k < attributes.len() - 1 ==> #[trigger] attributes[k].offset
            + attributes[k].format.byte_size() == attributes[k + 1].offset
    &&& attributes.last().offset + attributes.last().format.byte_size() == stride
}

/// The layout of the vertex buffer: a stride of 32 bytes, stepped for each
/// vertex, with the two attributes of a vertex.
pub fn vertex_layout() -> (layout: VertexBufferLayout)
    ensures
        layout.reads_vertices(),
{
    let mut attributes: Vec<VertexAttribute> = Vec::new();
    attributes.push(
        VertexAttribute {
            format: VertexFormat::Float32x4,
            offset: POSITION_OFFSET,
            shader_location: POSITION_LOCATION,
        },
    );
    attributes.push(
        VertexAttribute {
            format: VertexFormat::Float32x4,
            offset: COLOR_OFFSET,
            shader_location: COLOR_LOCATION,
        },
    );
    assert(attributes@ =~= vertex_attributes());
    VertexBufferLayout { array_stride: VERTEX_STRIDE, step_mode: StepMode::Vertex, attributes }
}

impl VertexBufferLayout {
    /// The layout is the one of the vertex buffer: a stride of 32 bytes,
    /// stepped for each vertex, with the two attributes of a vertex.
    pub open spec fn reads_vertices(&self) -> bool {
        &&& self.array_stride == VERTEX_STRIDE
        &&& self.step_mode == StepMode::Vertex
        &&& self.attributes@ == vertex_attributes()
    }
}

impl PipelineDescriptor {
    /// The descriptor is the fixed pipeline state for a target of the given
    /// format: the two shader stages by their entry points, the layout of
    /// the vertex buffer, a triangle list, no culling, no depth or stencil,
    /// one sample.
    pub open spec fn draws_to(&self, target_format: SurfaceFormat) -> bool {
        &&& self.vertex_entry@ == "vs_main"@
        &&& self.fragment_entry@ == "fs_main"@
        &&& self.vertex_layout.reads_vertices()
        &&& self.target_format == target_format
        &&& self.topology == Topology::TriangleList
        &&& self.cull_mode == None::<Face>
        &&& !self.depth_stencil
        &&& self.sample_count == SAMPLE_COUNT
    }
}

/// The pipeline that draws to a target of the given format.
pub fn pipeline_descriptor(target_format: SurfaceFormat) -> (descriptor: PipelineDescriptor)
    ensures
        descriptor.draws_to(target_format),
{
    PipelineDescriptor {
        vertex_entry: "vs_main",
        fragment_entry: "fs_main",
        vertex_layout: vertex_layout(),
        target_format,
        topology: Topology::TriangleList,
        cull_mode: None,
        depth_stencil: false,
        sample_count: SAMPLE_COUNT,
    }
}

/// The declared attributes cover a vertex exactly: 16 bytes at offset 0,
/// 16 bytes at offset 16, and a stride of 32 with nothing left over.
pub proof fn lemma_attributes_tile_the_stride()
    ensures
        tiles(vertex_attributes(), VERTEX_STRIDE),
        vertex_attributes().len() == 2,
        forall|k: int|
            0 <= k < 2 ==> (#[trigger] vertex_attributes()[k]).format == VertexFormat::Float32x4,
{
}

/// The image of a run of vertices matches the declared layout, in either
/// byte order: it holds one stride for each vertex, and what the vertex
/// stage reads for an attribute of a vertex is the image of that vertex's
/// field, the position for the first attribute and the color for the second.
pub proof fn lemma_vertex_image_matches_layout(
    vertices: Seq<Vertex>,
    order: ByteOrder,
    index: int,
    k: int,
)
    requires
        0 <= index < vertices.len(),
        0 <= k < vertex_attributes().len(),
    ensures
        words_bytes(vertices_words(vertices), order).len() == vertices.len() * VERTEX_STRIDE,
        attribute_bytes(
            words_bytes(vertices_words(vertices), order),
            VERTEX_STRIDE,
            vertex_attributes()[k],
            index,
        ) == words_bytes(
            attribute_words(vertices[index], vertex_attributes()[k].shader_location),
            order,
        ),
{
    let words = vertices_words(vertices);
    let buffer = words_bytes(words, order);
    let attribute = vertex_attributes()[k];
    let field = attribute_words(vertices[index], attribute.shader_location);
    let read = attribute_bytes(buffer, VERTEX_STRIDE, attribute, index);
    let start = index * 32 + attribute.offset;
    assert(attribute.offset == 16 * k);
    assert(read.len() == 16);
    assert forall|j: int| 0 <= j < 16 implies read[j] == words_bytes(field, order)[j] by {
        let w = (start + j) / 4;
        assert(w == 8 * index + 4 * k + j / 4);
        assert((start + j) % 4 == j % 4);
        assert(w / 8 == index);
        assert(w % 8 == 4 * k + j / 4);
        assert(words[w] == vertices[index].words()[4 * k + j / 4]);
        assert(vertices[index].words()[4 * k + j / 4] == field[j / 4]);
    }
    assert(read =~= words_bytes(field, order));
}

/// A buffer that holds the memory image of a run of vertices is read by the
/// declared layout as those vertices: it holds one stride for each of them,
/// and the bytes read for an attribute of a vertex are the memory image of
/// that vertex's field. This holds on a machine of either byte order.
pub proof fn lemma_vertex_buffer_matches_layout(
    contents: Seq<u8>,
    vertices: Seq<Vertex>,
    index: int,
    k: int,
)
    requires
        is_image_of(contents, vertices_words(vertices)),
        0 <= index < vertices.len(),
        0 <= k < vertex_attributes().len(),
    ensures
        contents.len() == vertices.len() * VERTEX_STRIDE,
        is_image_of(
            attribute_bytes(contents, VERTEX_STRIDE, vertex_attributes()[k], index),
            attribute_words(vertices[index], vertex_attributes()[k].shader_location),
        ),
{
    lemma_vertex_image_matches_layout(vertices, ByteOrder::LittleEndian, index, k);
    lemma_vertex_image_matches_layout(vertices, ByteOrder::BigEndian, index, k);
}

} // verus!
