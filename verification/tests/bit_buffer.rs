use tetra_mm::bit_buffer::{BitBuffer, PduParseErr};

#[test]
fn new_buffer_is_empty() {
    let buf = BitBuffer::new();
    assert_eq!(buf.get_len(), 0);
    assert_eq!(buf.get_pos(), 0);
}

#[test]
fn from_bytes_reads_most_significant_bit_first() {
    let mut buf = BitBuffer::from_bytes(&[0xA5, 0x3C]);
    assert_eq!(buf.get_len(), 16);
    assert_eq!(buf.get_pos(), 0);
    assert_eq!(buf.read_field(1, "a").unwrap(), 1);
    assert_eq!(buf.read_field(3, "b").unwrap(), 0b010);
    assert_eq!(buf.read_field(8, "c").unwrap(), 0x53);
    assert_eq!(buf.read_field(4, "d").unwrap(), 0xC);
    assert_eq!(buf.get_pos(), 16);
}

#[test]
fn read_field_of_zero_bits_gives_zero() {
    let mut buf = BitBuffer::from_bytes(&[0xFF]);
    assert_eq!(buf.read_field(0, "none").unwrap(), 0);
    assert_eq!(buf.get_pos(), 0);
}

#[test]
fn read_field_of_sixty_four_bits() {
    let mut buf = BitBuffer::from_bytes(&[0x01, 0x23, 0x45, 0x67, 0x89, 0xAB, 0xCD, 0xEF]);
    assert_eq!(buf.read_field(64, "all").unwrap(), 0x0123_4567_89AB_CDEF);
}

#[test]
fn read_past_end_fails_and_keeps_cursor() {
    let mut buf = BitBuffer::from_bytes(&[0xFF]);
    buf.read_field(5, "head").unwrap();
    let r = buf.read_field(4, "tail");
    assert!(matches!(r, Err(PduParseErr::BufferEnded { field: Some("tail") })));
    assert_eq!(buf.get_pos(), 5);
    assert_eq!(buf.read_field(3, "rest").unwrap(), 0b111);
}

#[test]
fn write_then_read_back() {
    let mut buf = BitBuffer::new();
    buf.write_bits(0b1011, 4);
    buf.write_bits(0x1FF, 6);
    assert_eq!(buf.get_len(), 10);
    assert_eq!(buf.get_pos(), 10);
    buf.seek(0);
    assert_eq!(buf.read_field(4, "x").unwrap(), 0b1011);
    // Only the six low-order bits of 0x1FF were written.
    assert_eq!(buf.read_field(6, "y").unwrap(), 0x3F);
}

#[test]
fn write_in_the_middle_overwrites_and_keeps_length() {
    let mut buf = BitBuffer::from_bytes(&[0x00, 0x00]);
    buf.seek(4);
    buf.write_bits(0xFF, 8);
    assert_eq!(buf.get_len(), 16);
    assert_eq!(buf.get_pos(), 12);
    buf.seek(0);
    assert_eq!(buf.read_field(16, "all").unwrap(), 0x0FF0);
}

#[test]
fn write_past_the_end_grows_the_buffer() {
    let mut buf = BitBuffer::from_bytes(&[0xF0]);
    buf.seek(6);
    buf.write_bits(0b1111, 4);
    assert_eq!(buf.get_len(), 10);
    buf.seek(0);
    assert_eq!(buf.read_field(10, "all").unwrap(), 0b11110011_11);
}
