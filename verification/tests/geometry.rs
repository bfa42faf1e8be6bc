use engine::graphics::geometry::{GeometryBuffer, Quad, MAX_INDICES, MAX_VERTICES};

fn quad(first: f32) -> Quad<[f32; 2]> {
    Quad {
        top_left: [first, 0.0],
        top_right: [first, 1.0],
        bottom_left: [first, 2.0],
        bottom_right: [first, 3.0],
    }
}

#[test]
fn new_buffer_is_empty() {
    let buffer: GeometryBuffer<[f32; 2]> = GeometryBuffer::new();
    assert!(buffer.vertices().is_empty());
    assert!(buffer.indices().is_empty());
}

#[test]
fn push_shape_offsets_indices_by_the_vertices_before() {
    let mut buffer: GeometryBuffer<u8> = GeometryBuffer::new();
    buffer.push_shape(&[10, 11, 12], &[0, 1, 2]);
    assert_eq!(buffer.vertices(), &[10, 11, 12]);
    assert_eq!(buffer.indices(), &[0, 1, 2]);
    buffer.push_shape(&[20, 21, 22, 23], &[0, 2, 3, 3, 1, 0]);
    assert_eq!(buffer.vertices(), &[10, 11, 12, 20, 21, 22, 23]);
    assert_eq!(buffer.indices(), &[0, 1, 2, 3, 5, 6, 6, 4, 3]);
    buffer.push_shape(&[30], &[0, 0]);
    assert_eq!(buffer.vertices(), &[10, 11, 12, 20, 21, 22, 23, 30]);
    assert_eq!(buffer.indices(), &[0, 1, 2, 3, 5, 6, 6, 4, 3, 7, 7]);
}

#[test]
fn push_shape_without_indices_only_adds_vertices() {
    let mut buffer: GeometryBuffer<u8> = GeometryBuffer::new();
    buffer.push_shape(&[1, 2], &[]);
    buffer.push_shape(&[], &[]);
    assert_eq!(buffer.vertices(), &[1, 2]);
    assert!(buffer.indices().is_empty());
}

#[test]
fn push_quad_stores_corners_in_order_with_the_fixed_winding() {
    let mut buffer: GeometryBuffer<[f32; 2]> = GeometryBuffer::new();
    buffer.push_quad(quad(7.0));
    assert_eq!(
        buffer.vertices(),
        &[[7.0, 0.0], [7.0, 1.0], [7.0, 2.0], [7.0, 3.0]]
    );
    assert_eq!(buffer.indices(), &[0, 2, 3, 3, 1, 0]);
}

#[test]
fn quads_fill_four_vertices_and_six_indices_each() {
    let mut buffer: GeometryBuffer<[f32; 2]> = GeometryBuffer::new();
    for n in 1..=100usize {
        assert!(buffer.accepts_quad());
        buffer.push_quad(quad(n as f32));
        assert_eq!(buffer.vertices().len(), 4 * n);
        assert_eq!(buffer.indices().len(), 6 * n);
        assert!(buffer.indices().iter().all(|&i| (i as usize) < 4 * n));
    }
}

#[test]
fn each_quad_keeps_the_winding_order_among_its_own_vertices() {
    let mut buffer: GeometryBuffer<[f32; 2]> = GeometryBuffer::new();
    for n in 0..50usize {
        buffer.push_quad(quad(n as f32));
    }
    let winding = [0u16, 2, 3, 3, 1, 0];
    for (shape, six) in buffer.indices().chunks(6).enumerate() {
        for (corner, &index) in six.iter().enumerate() {
            assert_eq!(index % 4, winding[corner]);
            assert_eq!(index as usize, 4 * shape + winding[corner] as usize);
            let vertex = buffer.vertices()[index as usize];
            assert_eq!(vertex, [shape as f32, winding[corner] as f32]);
        }
    }
}

#[test]
fn the_batch_takes_as_many_quads_as_sixteen_bits_can_index() {
    let mut buffer: GeometryBuffer<u8> = GeometryBuffer::new();
    let corners = || Quad {
        top_left: 0u8,
        top_right: 1,
        bottom_left: 2,
        bottom_right: 3,
    };
    for _ in 0..MAX_VERTICES / 4 {
        assert!(buffer.accepts_quad());
        buffer.push_quad(corners());
    }
    assert_eq!(buffer.vertices().len(), 65536);
    assert_eq!(buffer.indices().len(), 98304);
    assert_eq!(buffer.indices().iter().copied().max(), Some(65535));
    assert_eq!(&buffer.indices()[98298..], &[65532, 65534, 65535, 65535, 65533, 65532]);
    assert!(!buffer.accepts_quad());
    assert!(!buffer.accepts(1, &[]));
    assert!(buffer.accepts(0, &[]));
}

#[test]
fn accepts_asks_for_local_indices_within_the_shape() {
    let buffer: GeometryBuffer<u8> = GeometryBuffer::new();
    assert!(buffer.accepts(3, &[0, 1, 2]));
    assert!(!buffer.accepts(3, &[0, 1, 3]));
    assert!(!buffer.accepts(0, &[0]));
    assert!(buffer.accepts(MAX_VERTICES, &[65535]));
    assert!(!buffer.accepts(MAX_VERTICES + 1, &[]));
    assert!(!buffer.accepts(usize::MAX, &[]));
}

#[test]
fn limits_are_those_of_the_index_types() {
    assert_eq!(MAX_VERTICES, u16::MAX as usize + 1);
    assert_eq!(MAX_INDICES, u32::MAX as usize);
}

#[test]
fn clear_empties_both_lists() {
    let mut buffer: GeometryBuffer<[f32; 2]> = GeometryBuffer::new();
    buffer.push_quad(quad(1.0));
    buffer.push_quad(quad(2.0));
    buffer.clear();
    assert!(buffer.vertices().is_empty());
    assert!(buffer.indices().is_empty());
    buffer.push_quad(quad(3.0));
    assert_eq!(buffer.indices(), &[0, 2, 3, 3, 1, 0]);
}
