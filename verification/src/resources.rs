//! Resources: the two buffers and the bind group, as they are to be created.
//!
//! A buffer is described together with its initial contents, so it holds
//! them before its first use. The contents are the memory image of the
//! data, taken in one step and stored without change.

use crate::bytes::{cast_words, is_image_of, words_bytes, ByteOrder};
use crate::geometry::{
    initial_transform, start_transform, transform_words, triangle, triangle_vertices,
    vertex_words, vertices_words, UniformTransform, Vertex,
};
use crate::pipeline::VERTEX_STRIDE;
use vstd::prelude::*;

verus! {

/// Number of bytes in one transform record.
pub const TRANSFORM_BYTES: usize = 32;

/// Bind group that carries the transform.
pub const UNIFORM_GROUP: u32 = 0;

/// Binding of the transform within its bind group.
pub const UNIFORM_BINDING: u32 = 0;

/// What a buffer can be used for.
#[derive(Clone, Copy, Debug, PartialEq, Eq, Structural)]
pub struct BufferUsage {
    /// Source of vertices in a draw.
    pub vertex: bool,
    /// Uniform data bound in a bind group.
    pub uniform: bool,
    /// Destination of a copy or of a write through the queue.
    pub copy_dst: bool,
}

/// What a buffer is for.
#[derive(Clone, Copy, Debug, PartialEq, Eq, Structural)]
pub enum BufferRole {
    /// Holds the vertices.
    Vertex,
    /// Holds the transform.
    Uniform,
}

impl BufferRole {
    /// The usage of a buffer in this role: its own use, and destination of
    /// writes.
    pub open spec fn usage(self) -> BufferUsage {
        match self {
            BufferRole::Vertex => BufferUsage { vertex: true, uniform: false, copy_dst: true },
            BufferRole::Uniform => BufferUsage { vertex: false, uniform: true, copy_dst: true },
        }
    }
}

/// A buffer to create, with the bytes it holds from the start.
#[derive(Clone, Debug, PartialEq, Eq)]
pub struct BufferInit {
    pub role: BufferRole,
    pub contents: Vec<u8>,
    pub usage: BufferUsage,
}

impl BufferInit {
    /// The buffer is one in the given role, with the usage of that role,
    /// that holds the memory image of `words`.
    pub open spec fn holds(&self, role: BufferRole, words: Seq<u32>) -> bool {
        &&& self.role == role
        &&& self.usage == role.usage()
        &&& is_image_of(self.contents@, words)
    }

    /// A buffer in the given role that holds exactly `contents`.
    pub fn new(role: BufferRole, contents: Vec<u8>) -> (init: BufferInit)
        ensures
            init.role == role,
            init.contents@ == contents@,
            init.usage == role.usage(),
    {
        match role {
            BufferRole::Vertex => BufferInit {
                role,
                contents,
                usage: BufferUsage { vertex: true, uniform: false, copy_dst: true },
            },
            BufferRole::Uniform => BufferInit {
                role,
                contents,
                usage: BufferUsage { vertex: false, uniform: true, copy_dst: true },
            },
        }
    }
}

/// The binding of one whole buffer to a slot of the pipeline.
#[derive(Clone, Copy, Debug, PartialEq, Eq, Structural)]
pub struct BindGroupDescriptor {
    /// Index of the bind group layout, taken from the pipeline.
    pub group: u32,
    /// Binding within the group.
    pub binding: u32,
    /// The buffer that is bound, from its first byte to its last.
    pub buffer: BufferRole,
}

impl BindGroupDescriptor {
    /// The descriptor binds the whole uniform buffer at binding 0, laid out
    /// as the pipeline's group 0.
    pub open spec fn binds_transform(&self) -> bool {
        &&& self.group == UNIFORM_GROUP
        &&& self.binding == UNIFORM_BINDING
        &&& self.buffer == BufferRole::Uniform
    }
}

/// A vertex buffer that holds the image of `vertices`: one stride for each
/// vertex, usable as vertex source and as copy destination.
pub fn vertex_buffer(vertices: &[Vertex]) -> (init: BufferInit)
    ensures
        init.holds(BufferRole::Vertex, vertices_words(vertices@)),
        init.contents@.len() == VERTEX_STRIDE * vertices@.len(),
{
    let words = vertex_words(vertices);
    let bytes = cast_words(words.as_slice());
    BufferInit::new(BufferRole::Vertex, bytes)
}

/// A uniform buffer that holds the image of exactly one transform record,
/// usable as uniform data and as copy destination.
pub fn uniform_buffer(transform: &UniformTransform) -> (init: BufferInit)
    ensures
        init.holds(BufferRole::Uniform, transform.words()),
        init.contents@.len() == TRANSFORM_BYTES,
{
    let words = transform_words(transform);
    let bytes = cast_words(words.as_slice());
    BufferInit::new(BufferRole::Uniform, bytes)
}

/// The vertex buffer of the triangle: three vertices, 96 bytes.
pub fn triangle_buffer() -> (init: BufferInit)
    ensures
        init.holds(BufferRole::Vertex, vertices_words(triangle())),
        init.contents@.len() == 3 * VERTEX_STRIDE,
{
    let vertices = triangle_vertices();
    vertex_buffer(vertices.as_slice())
}

/// The uniform buffer at start: the one record of the initial transform.
pub fn transform_buffer() -> (init: BufferInit)
    ensures
        init.holds(BufferRole::Uniform, start_transform().words()),
        init.contents@.len() == TRANSFORM_BYTES,
{
    let transform = initial_transform();
    uniform_buffer(&transform)
}

/// The bind group of the transform: the whole uniform buffer at binding 0,
/// laid out as the pipeline's group 0.
pub fn uniform_bind_group() -> (descriptor: BindGroupDescriptor)
    ensures
        descriptor.binds_transform(),
{
    BindGroupDescriptor {
        group: UNIFORM_GROUP,
        binding: UNIFORM_BINDING,
        buffer: BufferRole::Uniform,
    }
}

/// What a buffer holds once `data` has been written over `contents` from
/// `offset` on.
pub open spec fn overwritten(contents: Seq<u8>, offset: int, data: Seq<u8>) -> Seq<u8> {
    Seq::new(
        contents.len(),
        |i: int|
            if offset <= i < offset + data.len() {
                data[i - offset]
            } else {
                contents[i]
            },
    )
}

/// Writes `data` over `contents` from `offset` on, where it fits. Where it
/// would run past the end nothing is written and the answer is `false`.
pub fn write_bytes(contents: &mut Vec<u8>, offset: usize, data: &[u8]) -> (fits: bool)
    ensures
        fits == (offset + data@.len() <= old(contents)@.len()),
        fits ==> final(contents)@ == overwritten(old(contents)@, offset as int, data@),
        !fits ==> final(contents)@ == old(contents)@,
{
    if offset > contents.len() || data.len() > contents.len() - offset {
        return false;
    }
    let mut i: usize = 0;
    while i < data.len()
        invariant
            i <= data@.len(),
            offset + data@.len() <= contents@.len() <= usize::MAX,
            contents@.len() == old(contents)@.len(),
            forall|j: int|
                0 <= j < contents@.len() ==> contents@[j] == if offset <= j < offset + i {
                    data@[j - offset]
                } else {
                    old(contents)@[j]
                },
        decreases data@.len() - i,
    {
        contents[offset + i] = data[i];
        i += 1;
    }
    assert(contents@ =~= overwritten(old(contents)@, offset as int, data@));
    true
}

/// Writing a buffer's own bytes back changes nothing: where `data` is what
/// the buffer already holds from `offset` on, the contents are the same
/// after the write as before it.
pub proof fn lemma_rewrite_changes_nothing(contents: Seq<u8>, offset: int, data: Seq<u8>)
    requires
        0 <= offset,
        offset + data.len() <= contents.len(),
        data == contents.subrange(offset, offset + data.len()),
    ensures
        overwritten(contents, offset, data) == contents,
{
    assert(overwritten(contents, offset, data) =~= contents);
}

/// Rewriting a whole buffer with the bytes it was created with leaves it as
/// it was.
pub proof fn lemma_rewrite_whole_buffer(contents: Seq<u8>)
    ensures
        overwritten(contents, 0, contents) == contents,
{
    assert(overwritten(contents, 0, contents) =~= contents);
}

/// A write is idempotent: the same bytes written twice at the same place
/// leave what they left the first time.
pub proof fn lemma_write_is_idempotent(contents: Seq<u8>, offset: int, data: Seq<u8>)
    ensures
        overwritten(overwritten(contents, offset, data), offset, data) == overwritten(
            contents,
            offset,
            data,
        ),
{
    assert(overwritten(overwritten(contents, offset, data), offset, data) =~= overwritten(
        contents,
        offset,
        data,
    ));
}

/// In either byte order the image of one record is 32 bytes, and that of
/// `n` vertices is `n` strides.
pub proof fn lemma_image_sizes(vertices: Seq<Vertex>, transform: UniformTransform, order: ByteOrder)
    ensures
        words_bytes(vertices_words(vertices), order).len() == VERTEX_STRIDE * vertices.len(),
        words_bytes(transform.words(), order).len() == TRANSFORM_BYTES,
        words_bytes(vertices_words(triangle()), order).len() == 96,
{
}

} // verus!
