use frame_lifecycle::geometry::{
    initial_transform, transform_words, triangle_vertices, vertex_words, Float4,
    UniformTransform, Vertex, FLOAT4_WORDS, HALF, MINUS_HALF, MINUS_ONE, ONE, RECORD_WORDS,
    TRIANGLE_VERTICES, ZERO,
};

fn floats(value: Float4) -> [f32; 4] {
    [
        f32::from_bits(value.x),
        f32::from_bits(value.y),
        f32::from_bits(value.z),
        f32::from_bits(value.w),
    ]
}

#[test]
fn bit_patterns_are_those_of_the_floats() {
    assert_eq!(ZERO, 0.0f32.to_bits());
    assert_eq!(ONE, 1.0f32.to_bits());
    assert_eq!(MINUS_ONE, (-1.0f32).to_bits());
    assert_eq!(HALF, 0.5f32.to_bits());
    assert_eq!(MINUS_HALF, (-0.5f32).to_bits());
}

#[test]
fn record_is_eight_words() {
    assert_eq!(FLOAT4_WORDS, 4);
    assert_eq!(RECORD_WORDS, 8);
    assert_eq!(RECORD_WORDS * 4, std::mem::size_of::<[[f32; 4]; 2]>());
}

#[test]
fn triangle_has_three_vertices() {
    let vertices: Vec<Vertex> = triangle_vertices();
    assert_eq!(vertices.len(), 3);
    assert_eq!(TRIANGLE_VERTICES, 3);
}

#[test]
fn triangle_positions_and_colors() {
    let vertices: Vec<Vertex> = triangle_vertices();
    assert_eq!(floats(vertices[0].position), [0.0, 0.0, 0.0, 1.0]);
    assert_eq!(floats(vertices[0].color), [1.0, 0.0, 0.0, 1.0]);
    assert_eq!(floats(vertices[1].position), [1.0, 0.0, 0.0, 1.0]);
    assert_eq!(floats(vertices[1].color), [0.0, 1.0, 0.0, 1.0]);
    assert_eq!(floats(vertices[2].position), [0.0, -1.0, 0.0, 1.0]);
    assert_eq!(floats(vertices[2].color), [0.0, 0.0, 1.0, 1.0]);
}

#[test]
fn initial_transform_moves_and_halves() {
    let transform: UniformTransform = initial_transform();
    assert_eq!(floats(transform.translation), [-1.0, -0.5, 0.0, 0.0]);
    assert_eq!(floats(transform.scale), [0.5, 0.5, 1.0, 1.0]);
}

#[test]
fn vertex_words_are_position_then_color() {
    let vertex = Vertex {
        position: Float4 { x: 1, y: 2, z: 3, w: 4 },
        color: Float4 { x: 5, y: 6, z: 7, w: 8 },
    };
    let other = Vertex {
        position: Float4 { x: 11, y: 12, z: 13, w: 14 },
        color: Float4 { x: 15, y: 16, z: 17, w: 18 },
    };
    assert_eq!(vertex_words(&[vertex]), vec![1, 2, 3, 4, 5, 6, 7, 8]);
    assert_eq!(
        vertex_words(&[vertex, other]),
        vec![1, 2, 3, 4, 5, 6, 7, 8, 11, 12, 13, 14, 15, 16, 17, 18]
    );
}

#[test]
fn no_vertices_give_no_words() {
    let none: Vec<Vertex> = Vec::new();
    assert_eq!(vertex_words(&none), Vec::<u32>::new());
}

#[test]
fn triangle_words_in_memory_order() {
    let words: Vec<u32> = vertex_words(&triangle_vertices());
    assert_eq!(words.len(), 24);
    let expected: Vec<u32> = vec![
        ZERO, ZERO, ZERO, ONE, ONE, ZERO, ZERO, ONE, //
        ONE, ZERO, ZERO, ONE, ZERO, ONE, ZERO, ONE, //
        ZERO, MINUS_ONE, ZERO, ONE, ZERO, ZERO, ONE, ONE,
    ];
    assert_eq!(words, expected);
}

#[test]
fn transform_words_are_translation_then_scale() {
    let words: Vec<u32> = transform_words(&initial_transform());
    assert_eq!(words, vec![MINUS_ONE, MINUS_HALF, ZERO, ZERO, HALF, HALF, ONE, ONE]);
}
