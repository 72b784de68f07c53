use esp_at_nal::buffer::Buffer;
use esp_at_nal::error::Error;

#[test]
fn new_buffer_starts_empty() {
    let mut destination = [0u8; 8];
    let buffer: Buffer<4> = Buffer::new(&mut destination);
    assert_eq!(buffer.len(), 0);
    assert_eq!(buffer.buffer_space(), 8);
    assert!(!buffer.is_full());
}

#[test]
fn next_length_is_cut_at_chunk_size() {
    let mut destination = [0u8; 10];
    let mut buffer: Buffer<4> = Buffer::new(&mut destination);
    assert_eq!(buffer.get_next_length(), 4);
    buffer.append(&[1, 2, 3, 4]).unwrap();
    assert_eq!(buffer.get_next_length(), 4);
    buffer.append(&[5, 6, 7, 8]).unwrap();
    assert_eq!(buffer.get_next_length(), 2);
    buffer.append(&[9, 10]).unwrap();
    assert_eq!(buffer.get_next_length(), 0);
    assert!(buffer.is_full());
}

#[test]
fn next_length_is_the_space_of_a_small_destination() {
    let mut destination = [0u8; 3];
    let buffer: Buffer<256> = Buffer::new(&mut destination);
    assert_eq!(buffer.get_next_length(), 3);
}

#[test]
fn append_writes_at_the_cursor() {
    let mut destination = [0xffu8; 6];
    {
        let mut buffer: Buffer<4> = Buffer::new(&mut destination);
        assert_eq!(buffer.append(&[1, 2]), Ok(()));
        assert_eq!(buffer.len(), 2);
        assert_eq!(buffer.append(&[3, 4, 5]), Ok(()));
        assert_eq!(buffer.len(), 5);
        assert_eq!(buffer.buffer_space(), 1);
        assert!(!buffer.is_full());
    }
    assert_eq!(destination, [1, 2, 3, 4, 5, 0xff]);
}

#[test]
fn append_of_nothing_changes_nothing() {
    let mut destination = [7u8; 2];
    {
        let mut buffer: Buffer<4> = Buffer::new(&mut destination);
        assert_eq!(buffer.append(&[]), Ok(()));
        assert_eq!(buffer.len(), 0);
    }
    assert_eq!(destination, [7, 7]);
}

#[test]
fn append_fills_the_destination_exactly() {
    let mut destination = [0u8; 4];
    {
        let mut buffer: Buffer<4> = Buffer::new(&mut destination);
        assert_eq!(buffer.append(&[9, 8, 7, 6]), Ok(()));
        assert!(buffer.is_full());
        assert_eq!(buffer.len(), 4);
        assert_eq!(buffer.get_next_length(), 0);
    }
    assert_eq!(destination, [9, 8, 7, 6]);
}

#[test]
fn append_refuses_what_does_not_fit() {
    let mut destination = [0u8; 4];
    {
        let mut buffer: Buffer<4> = Buffer::new(&mut destination);
        buffer.append(&[1, 2, 3]).unwrap();
        assert_eq!(buffer.append(&[4, 5]), Err(Error::ReceiveOverflow));
        assert_eq!(buffer.len(), 3);
        assert_eq!(buffer.buffer_space(), 1);
    }
    assert_eq!(destination, [1, 2, 3, 0]);
}

#[test]
fn empty_destination_is_full() {
    let mut destination: [u8; 0] = [];
    let mut buffer: Buffer<4> = Buffer::new(&mut destination);
    assert!(buffer.is_full());
    assert_eq!(buffer.get_next_length(), 0);
    assert_eq!(buffer.append(&[1]), Err(Error::ReceiveOverflow));
    assert_eq!(buffer.len(), 0);
}
