use pencilmake::model::{
    load_model, Vertex, COLOR_OFFSET, COORDS_OFFSET, INDEX_ALIGNMENT, INDEX_SIZE, ONE,
    POSITION_OFFSET, VERTEX_ALIGNMENT, VERTEX_STRIDE, VERTEX_STRIDE_BYTES,
};

fn bits(values: &[f32]) -> Vec<u32> {
    values.iter().map(|v| v.to_bits()).collect()
}

#[test]
fn vertices_are_put_together_from_flat_arrays() {
    let positions = bits(&[0.0, 1.0, 2.0, 3.0, 4.0, 5.0]);
    let coords = bits(&[0.25, 0.5, 0.75, 1.0]);
    let (vertices, indices) = load_model(&positions, &coords, vec![0, 1, 0]);
    assert_eq!(indices, vec![0, 1, 0]);
    assert_eq!(
        vertices,
        vec![
            Vertex {
                pos: (0f32.to_bits(), 1f32.to_bits(), 2f32.to_bits()),
                color: (1f32.to_bits(), 1f32.to_bits(), 1f32.to_bits()),
                coords: (0.25f32.to_bits(), 0.5f32.to_bits()),
            },
            Vertex {
                pos: (3f32.to_bits(), 4f32.to_bits(), 5f32.to_bits()),
                color: (ONE, ONE, ONE),
                coords: (0.75f32.to_bits(), 1f32.to_bits()),
            },
        ]
    );
}

#[test]
fn one_is_the_bit_pattern_of_one() {
    assert_eq!(f32::from_bits(ONE), 1.0);
}

#[test]
fn positions_beyond_the_last_triple_are_ignored() {
    let positions = bits(&[1.0, 2.0, 3.0, 4.0, 5.0]);
    let coords = bits(&[0.0, 0.0, 9.0]);
    let (vertices, _) = load_model(&positions, &coords, Vec::new());
    assert_eq!(vertices.len(), 1);
    assert_eq!(vertices[0].coords, (0, 0));
}

#[test]
fn empty_model_has_no_vertices() {
    let (vertices, indices) = load_model(&Vec::new(), &Vec::new(), vec![3, 2, 1]);
    assert!(vertices.is_empty());
    assert_eq!(indices, vec![3, 2, 1]);
}

#[test]
fn vertex_layout() {
    assert_eq!(VERTEX_STRIDE, 8 * std::mem::size_of::<f32>());
    assert_eq!(VERTEX_STRIDE_BYTES as usize, VERTEX_STRIDE);
    assert_eq!(std::mem::size_of::<Vertex>(), VERTEX_STRIDE);
    assert_eq!(VERTEX_ALIGNMENT, std::mem::align_of::<u32>());
    assert_eq!(INDEX_SIZE, std::mem::size_of::<u32>());
    assert_eq!(INDEX_ALIGNMENT, std::mem::align_of::<u16>());
    assert_eq!((POSITION_OFFSET, COLOR_OFFSET, COORDS_OFFSET), (0, 12, 24));
}
