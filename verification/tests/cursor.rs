use solaire::pe::cursor::Cursor;
use solaire::pe::PeError;

#[test]
fn cursor_reads_little_endian_words() {
    let mut cursor = Cursor::new(vec![0x34, 0x12, 0x78, 0x56, 0x34, 0x12, 1, 2, 3, 4, 5, 6, 7, 8]);
    assert_eq!(cursor.read_u16(), Ok(0x1234));
    assert_eq!(cursor.position(), 2);
    assert_eq!(cursor.read_u32(), Ok(0x1234_5678));
    assert_eq!(cursor.position(), 6);
    assert_eq!(cursor.read_u64(), Ok(0x0807_0605_0403_0201));
    assert_eq!(cursor.position(), 14);
    assert_eq!(cursor.read_u8(), Err(PeError::BoundsError));
    assert_eq!(cursor.position(), 14);
}

#[test]
fn cursor_starts_at_zero_and_owns_its_buffer() {
    let cursor = Cursor::new(vec![9, 8, 7]);
    assert_eq!(cursor.position(), 0);
    assert_eq!(cursor.position, 0);
    assert_eq!(cursor.bytes, vec![9, 8, 7]);
}

#[test]
fn cursor_reads_signed_words_in_twos_complement() {
    let mut cursor = Cursor::new(vec![0xff, 0xff, 0xfe, 0xff, 0x00, 0x80, 0xff, 0x7f, 0x00, 0x00]);
    assert_eq!(cursor.read_i16(), Ok(-1));
    assert_eq!(cursor.read_i16(), Ok(-2));
    assert_eq!(cursor.read_i16(), Ok(i16::MIN));
    assert_eq!(cursor.read_i16(), Ok(i16::MAX));
    assert_eq!(cursor.read_i16(), Ok(0));
    assert_eq!(cursor.read_i16(), Err(PeError::BoundsError));
}

#[test]
fn cursor_reads_bytes_and_skips() {
    let mut cursor = Cursor::new(vec![1, 2, 3, 4, 5, 6]);
    assert_eq!(cursor.read_u8(), Ok(1));
    assert_eq!(cursor.skip(2), Ok(()));
    assert_eq!(cursor.position(), 3);
    assert_eq!(cursor.read(2), Ok(vec![4, 5]));
    assert_eq!(cursor.position(), 5);
    assert_eq!(cursor.read(0), Ok(vec![]));
    assert_eq!(cursor.position(), 5);
    assert_eq!(cursor.read(1), Ok(vec![6]));
    assert_eq!(cursor.read(0), Ok(vec![]));
    assert_eq!(cursor.skip(0), Ok(()));
    assert_eq!(cursor.position(), 6);
}

#[test]
fn a_read_that_fails_leaves_the_cursor_where_it_was() {
    let mut cursor = Cursor::new(vec![1, 2, 3]);
    assert_eq!(cursor.read_u32(), Err(PeError::BoundsError));
    assert_eq!(cursor.position(), 0);
    assert_eq!(cursor.read_u64(), Err(PeError::BoundsError));
    assert_eq!(cursor.position(), 0);
    assert_eq!(cursor.read(4), Err(PeError::BoundsError));
    assert_eq!(cursor.skip(4), Err(PeError::BoundsError));
    assert_eq!(cursor.read_str(4), Err(PeError::BoundsError));
    assert_eq!(cursor.position(), 0);
    assert_eq!(cursor.read_u16(), Ok(0x0201));
    assert_eq!(cursor.read_u16(), Err(PeError::BoundsError));
    assert_eq!(cursor.read_i16(), Err(PeError::BoundsError));
    assert_eq!(cursor.position(), 2);
    assert_eq!(cursor.skip(usize::MAX), Err(PeError::BoundsError));
    assert_eq!(cursor.read(usize::MAX), Err(PeError::BoundsError));
    assert_eq!(cursor.position(), 2);
}

#[test]
fn a_cursor_set_past_its_buffer_reads_nothing() {
    let mut cursor = Cursor { bytes: vec![1, 2], position: 5 };
    assert!(!cursor.has(0));
    assert_eq!(cursor.read(0), Err(PeError::BoundsError));
    assert_eq!(cursor.read_u8(), Err(PeError::BoundsError));
    assert_eq!(cursor.skip(1), Err(PeError::BoundsError));
    assert_eq!(cursor.position(), 5);
}

#[test]
fn has_tells_what_is_left() {
    let mut cursor = Cursor::new(vec![0; 4]);
    assert!(cursor.has(4));
    assert!(!cursor.has(5));
    assert_eq!(cursor.skip(3), Ok(()));
    assert!(cursor.has(1));
    assert!(!cursor.has(2));
    assert!(!cursor.has(usize::MAX));
}

#[test]
fn read_str_decodes_utf8_and_keeps_the_padding() {
    let mut cursor = Cursor::new(b".text\0\0\0gr\xc3\xbc\xc3\x9f".to_vec());
    assert_eq!(cursor.read_str(8), Ok(".text\0\0\0".to_string()));
    assert_eq!(cursor.position(), 8);
    assert_eq!(cursor.read_str(6), Ok("grüß".to_string()));
    assert_eq!(cursor.position(), 14);
    assert_eq!(cursor.read_str(0), Ok(String::new()));
}

#[test]
fn read_str_refuses_what_is_not_utf8_and_does_not_move() {
    let mut cursor = Cursor::new(vec![b'a', 0xc3, b'b', b'c']);
    assert_eq!(cursor.read_str(4), Err(PeError::EncodingError));
    assert_eq!(cursor.position(), 0);
    assert_eq!(cursor.read_str(2), Err(PeError::EncodingError));
    assert_eq!(cursor.position(), 0);
    assert_eq!(cursor.read_str(1), Ok("a".to_string()));
    assert_eq!(cursor.position(), 1);
}
