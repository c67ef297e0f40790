use solaire::pe::PeError;
use solaire::util::{
    get_msb_u32, get_msb_u64, i16_from_bytes, read_u8_until_null, u16_from_bytes, u32_from_bytes,
    u64_from_bytes, wchar_arr_to_string,
};

#[test]
fn words_are_little_endian() {
    assert_eq!(u16_from_bytes(&[0x34, 0x12]), 0x1234);
    assert_eq!(u16_from_bytes(&[0xff, 0xff]), u16::MAX);
    assert_eq!(u32_from_bytes(&[0x78, 0x56, 0x34, 0x12]), 0x1234_5678);
    assert_eq!(u32_from_bytes(&[0xff, 0xff, 0xff, 0xff]), u32::MAX);
    assert_eq!(u64_from_bytes(&[0xef, 0xcd, 0xab, 0x89, 0x67, 0x45, 0x23, 0x01]), 0x0123_4567_89ab_cdef);
    assert_eq!(u64_from_bytes(&[0xff; 8]), u64::MAX);
    assert_eq!(u64_from_bytes(&[0, 0, 0, 0, 0, 0, 0, 0x80]), 0x8000_0000_0000_0000);
}

#[test]
fn words_are_read_from_the_front_of_a_longer_slice() {
    assert_eq!(u16_from_bytes(&[1, 0, 9, 9]), 1);
    assert_eq!(u32_from_bytes(&[1, 0, 0, 0, 9, 9]), 1);
    assert_eq!(u64_from_bytes(&[1, 0, 0, 0, 0, 0, 0, 0, 9]), 1);
    assert_eq!(i16_from_bytes(&[0xff, 0xff, 7]), -1);
}

#[test]
fn signed_words_are_in_twos_complement() {
    assert_eq!(i16_from_bytes(&[0x00, 0x00]), 0);
    assert_eq!(i16_from_bytes(&[0xff, 0x7f]), i16::MAX);
    assert_eq!(i16_from_bytes(&[0x00, 0x80]), i16::MIN);
    assert_eq!(i16_from_bytes(&[0xfe, 0xff]), -2);
}

#[test]
fn words_agree_with_the_standard_decoding() {
    for seed in 0..2000u64 {
        let x = seed.wrapping_mul(0x9e37_79b9_7f4a_7c15) ^ (seed << 7);
        let bytes = x.to_le_bytes();
        assert_eq!(u64_from_bytes(&bytes), x);
        assert_eq!(u32_from_bytes(&bytes), x as u32);
        assert_eq!(u16_from_bytes(&bytes), x as u16);
        assert_eq!(i16_from_bytes(&bytes), x as u16 as i16);
    }
}

#[test]
fn msb_is_the_top_bit() {
    assert_eq!(get_msb_u32(0), 0);
    assert_eq!(get_msb_u32(0x7fff_ffff), 0);
    assert_eq!(get_msb_u32(0x8000_0000), 1);
    assert_eq!(get_msb_u32(u32::MAX), 1);
    assert_eq!(get_msb_u64(0), 0);
    assert_eq!(get_msb_u64(0x7fff_ffff_ffff_ffff), 0);
    assert_eq!(get_msb_u64(0x8000_0000_0000_0000), 1);
    assert_eq!(get_msb_u64(0x8000_0000), 0);
    assert_eq!(get_msb_u64(u64::MAX), 1);
}

#[test]
fn read_until_null_stops_before_the_first_zero() {
    let data = b"abc\0def\0";
    assert_eq!(read_u8_until_null(0, data), Ok(&b"abc"[..]));
    assert_eq!(read_u8_until_null(1, data), Ok(&b"bc"[..]));
    assert_eq!(read_u8_until_null(3, data), Ok(&b""[..]));
    assert_eq!(read_u8_until_null(4, data), Ok(&b"def"[..]));
    assert_eq!(read_u8_until_null(7, data), Ok(&b""[..]));
}

#[test]
fn read_until_null_without_a_zero_is_a_bounds_error() {
    assert_eq!(read_u8_until_null(0, b"abc"), Err(PeError::BoundsError));
    assert_eq!(read_u8_until_null(5, b"abc\0d"), Err(PeError::BoundsError));
    assert_eq!(read_u8_until_null(6, b"abc\0d"), Err(PeError::BoundsError));
    assert_eq!(read_u8_until_null(usize::MAX, b"abc\0"), Err(PeError::BoundsError));
    assert_eq!(read_u8_until_null(0, b""), Err(PeError::BoundsError));
}

#[test]
fn padded_text_ends_at_the_first_zero() {
    assert_eq!(wchar_arr_to_string(b"notepad.exe\0\0\0garbage"), "notepad.exe");
    assert_eq!(wchar_arr_to_string(b"full"), "full");
    assert_eq!(wchar_arr_to_string(b"\0hidden"), "");
    assert_eq!(wchar_arr_to_string(b""), "");
}

#[test]
fn padded_text_takes_each_byte_as_one_character() {
    assert_eq!(wchar_arr_to_string(&[0x41, 0xe9, 0xff, 0]), "A\u{e9}\u{ff}");
    assert_eq!(wchar_arr_to_string(&[0xc3, 0xa9]).chars().count(), 2);
}
