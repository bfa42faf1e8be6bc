use engine::graphics::geometry::{GeometryBuffer, Quad};
use engine::graphics::State;

#[test]
fn index_bytes_are_the_indices_in_the_byte_order_of_the_machine() {
    let mut buffer: GeometryBuffer<u8> = GeometryBuffer::new();
    assert!(buffer.index_bytes().is_empty());
    buffer.push_shape(&[0; 300], &[0, 1, 255, 256, 299]);
    let bytes = buffer.index_bytes();
    assert_eq!(bytes.len(), 10);
    let expected: Vec<u8> = [0u16, 1, 255, 256, 299]
        .iter()
        .flat_map(|index| index.to_ne_bytes())
        .collect();
    assert_eq!(bytes, &expected[..]);
    let low_first: Vec<u8> = vec![0, 0, 1, 0, 255, 0, 0, 1, 43, 1];
    let high_first: Vec<u8> = vec![0, 0, 0, 1, 0, 255, 1, 0, 1, 43];
    assert!(bytes == &low_first[..] || bytes == &high_first[..]);
}

#[test]
fn state_hands_out_the_index_bytes_of_its_batch() {
    let mut state: State<u8> = State::new(1);
    state.push_quad(Quad {
        top_left: 0,
        top_right: 1,
        bottom_left: 2,
        bottom_right: 3,
    });
    state.push_quad(Quad {
        top_left: 4,
        top_right: 5,
        bottom_left: 6,
        bottom_right: 7,
    });
    let bytes = state.index_bytes();
    assert_eq!(bytes.len() as u64, state.upload_plan().indices.bytes);
    let decoded: Vec<u16> = bytes
        .chunks(2)
        .map(|pair| u16::from_ne_bytes([pair[0], pair[1]]))
        .collect();
    assert_eq!(decoded, state.indices());
    assert_eq!(decoded, vec![0, 2, 3, 3, 1, 0, 4, 6, 7, 7, 5, 4]);
}
