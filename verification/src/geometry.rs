//! Geometry and transform data: the triangle's vertices and the transform
//! applied to them.
//!
//! Every component is a 32-bit float. It is held here by its IEEE 754 bit
//! pattern, so that the data is plain integers and its byte image is exact.

use vstd::prelude::*;

verus! {

/// Bit pattern of `0.0`.
pub const ZERO: u32 = 0x0000_0000;

/// Bit pattern of `1.0`.
pub const ONE: u32 = 0x3f80_0000;

/// Bit pattern of `-1.0`.
pub const MINUS_ONE: u32 = 0xbf80_0000;

/// Bit pattern of `0.5`.
pub const HALF: u32 = 0x3f00_0000;

/// Bit pattern of `-0.5`.
pub const MINUS_HALF: u32 = 0xbf00_0000;

/// Number of 32-bit words in a `Float4`.
pub const FLOAT4_WORDS: usize = 4;

/// Number of 32-bit words in a `Vertex`, and in a `UniformTransform`.
pub const RECORD_WORDS: usize = 2 * FLOAT4_WORDS;

/// Number of vertices in the triangle.
pub const TRIANGLE_VERTICES: u32 = 3;

/// Four 32-bit floats, each held by its bit pattern.
#[derive(Clone, Copy, Debug, PartialEq, Eq, Structural)]
pub struct Float4 {
    pub x: u32,
    pub y: u32,
    pub z: u32,
    pub w: u32,
}

impl Float4 {
    /// The four components in memory order.
    pub open spec fn words(self) -> Seq<u32> {
        seq![self.x, self.y, self.z, self.w]
    }
}

/// One corner of the triangle: a position and a color, in that order, with
/// nothing between or after them.
#[derive(Clone, Copy, Debug, PartialEq, Eq, Structural)]
pub struct Vertex {
    pub position: Float4,
    pub color: Float4,
}

impl Vertex {
    /// The eight components in memory order: position, then color.
    pub open spec fn words(self) -> Seq<u32> {
        self.position.words() + self.color.words()
    }
}

/// The transform the vertex stage applies: a translation and a scale, in
/// that order.
#[derive(Clone, Copy, Debug, PartialEq, Eq, Structural)]
pub struct UniformTransform {
    pub translation: Float4,
    pub scale: Float4,
}

impl UniformTransform {
    /// The eight components in memory order: translation, then scale.
    pub open spec fn words(self) -> Seq<u32> {
        self.translation.words() + self.scale.words()
    }
}

/// The words of a run of vertices: word `i` is component `i % 8` of vertex
/// `i / 8`.
pub open spec fn vertices_words(vertices: Seq<Vertex>) -> Seq<u32> {
    Seq::new(8 * vertices.len(), |i: int| vertices[i / 8].words()[i % 8])
}

/// The triangle: a red corner at the origin, a green one at `(1, 0)` and a
/// blue one at `(0, -1)`.
pub open spec fn triangle() -> Seq<Vertex> {
    seq![
        Vertex {
            position: Float4 { x: ZERO, y: ZERO, z: ZERO, w: ONE },
            color: Float4 { x: ONE, y: ZERO, z: ZERO, w: ONE },
        },
        Vertex {
            position: Float4 { x: ONE, y: ZERO, z: ZERO, w: ONE },
            color: Float4 { x: ZERO, y: ONE, z: ZERO, w: ONE },
        },
        Vertex {
            position: Float4 { x: ZERO, y: MINUS_ONE, z: ZERO, w: ONE },
            color: Float4 { x: ZERO, y: ZERO, z: ONE, w: ONE },
        },
    ]
}

/// The transform uploaded at start: move by `(-1, -0.5)`, halve `x` and `y`.
pub open spec fn start_transform() -> UniformTransform {
    UniformTransform {
        translation: Float4 { x: MINUS_ONE, y: MINUS_HALF, z: ZERO, w: ZERO },
        scale: Float4 { x: HALF, y: HALF, z: ONE, w: ONE },
    }
}

/// The three vertices of the triangle.
pub fn triangle_vertices() -> (vertices: Vec<Vertex>)
    ensures
        vertices@ == triangle(),
        vertices@.len() == TRIANGLE_VERTICES,
{
    let mut vertices: Vec<Vertex> = Vec::new();
    vertices.push(
        Vertex {
            position: Float4 { x: ZERO, y: ZERO, z: ZERO, w: ONE },
            color: Float4 { x: ONE, y: ZERO, z: ZERO, w: ONE },
        },
    );
    vertices.push(
        Vertex {
            position: Float4 { x: ONE, y: ZERO, z: ZERO, w: ONE },
            color: Float4 { x: ZERO, y: ONE, z: ZERO, w: ONE },
        },
    );
    vertices.push(
        Vertex {
            position: Float4 { x: ZERO, y: MINUS_ONE, z: ZERO, w: ONE },
            color: Float4 { x: ZERO, y: ZERO, z: ONE, w: ONE },
        },
    );
    assert(vertices@ =~= triangle());
    vertices
}

/// The transform uploaded at start.
pub fn initial_transform() -> (transform: UniformTransform)
    ensures
        transform == start_transform(),
{
    UniformTransform {
        translation: Float4 { x: MINUS_ONE, y: MINUS_HALF, z: ZERO, w: ZERO },
        scale: Float4 { x: HALF, y: HALF, z: ONE, w: ONE },
    }
}

/// Appends the four components of `value` to `words`.
fn push_float4(words: &mut Vec<u32>, value: Float4)
    ensures
        final(words)@ == old(words)@ + value.words(),
{
    words.push(value.x);
    words.push(value.y);
    words.push(value.z);
    words.push(value.w);
    assert(words@ =~= old(words)@ + value.words());
}

/// The words of one transform record.
pub fn transform_words(transform: &UniformTransform) -> (words: Vec<u32>)
    ensures
        words@ == transform.words(),
{
    let mut words: Vec<u32> = Vec::new();
    push_float4(&mut words, transform.translation);
    push_float4(&mut words, transform.scale);
    assert(words@ =~= transform.words());
    words
}

/// The words of a run of vertices, one vertex after the other.
pub fn vertex_words(vertices: &[Vertex]) -> (words: Vec<u32>)
    ensures
        words@ == vertices_words(vertices@),
{
    let mut words: Vec<u32> = Vec::new();
    let mut i: usize = 0;
    while i < vertices.len()
        invariant
            i <= vertices.len(),
            words@.len() == 8 * i,
            forall|j: int| 0 <= j < 8 * i ==> words@[j] == vertices@[j / 8].words()[j % 8],
        decreases vertices.len() - i,
    {
        let vertex: Vertex = vertices[i];
        let ghost before = words@;
        push_float4(&mut words, vertex.position);
        push_float4(&mut words, vertex.color);
        assert(words@ =~= before + vertex.words());
        assert forall|j: int| 0 <= j < 8 * (i + 1) implies words@[j] == vertices@[j / 8].words()[
            j % 8] by {
            if j >= 8 * i {
                assert(j / 8 == i as int);
                assert(j % 8 == j - 8 * i);
                assert(words@[j] == vertex.words()[j - 8 * i]);
            } else {
                assert(words@[j] == before[j]);
            }
        }
        i += 1;
    }
    assert(words@ =~= vertices_words(vertices@));
    words
}

} // verus!
