//! Little-endian decoding and null-terminated byte strings.

use crate::pe::PeError;
use vstd::prelude::*;
use vstd::slice::slice_subrange;
use vstd::utf8::{encode_utf8, valid_utf8};

verus! {

/// The 16-bit little-endian value of the two bytes of `b` at `at`.
pub open spec fn le_u16(b: Seq<u8>, at: int) -> u16 {
    (b[at] as int + 0x100 * (b[at + 1] as int)) as u16
}

/// The 32-bit little-endian value of the four bytes of `b` at `at`.
pub open spec fn le_u32(b: Seq<u8>, at: int) -> u32 {
    (le_u16(b, at) as int + 0x1_0000 * (le_u16(b, at + 2) as int)) as u32
}

/// The 64-bit little-endian value of the eight bytes of `b` at `at`.
pub open spec fn le_u64(b: Seq<u8>, at: int) -> u64 {
    (le_u32(b, at) as int + 0x1_0000_0000 * (le_u32(b, at + 4) as int)) as u64
}

/// The two's-complement reading of a 16-bit word.
pub open spec fn as_signed_16(x: u16) -> i16 {
    if x >= 0x8000 {
        (x as int - 0x1_0000) as i16
    } else {
        x as i16
    }
}

/// The index of the first zero byte of `data` at or after `from`, if there is one.
pub open spec fn null_offset(data: Seq<u8>, from: int) -> Option<int>
    decreases data.len() - from,
{
    if from < 0 || from >= data.len() {
        None
    } else if data[from] == 0 {
        Some(from)
    } else {
        null_offset(data, from + 1)
    }
}

/// `null_offset` finds the least zero byte at or after `from`, and finds none
/// only where there is none.
pub proof fn lemma_null_offset_is_first(data: Seq<u8>, from: int)
    requires
        0 <= from,
    ensures
        match null_offset(data, from) {
            Some(end) => {
                &&& from <= end < data.len()
                &&& data[end] == 0
                &&& forall|i: int| from <= i < end ==> data[i] != 0
            },
            None => forall|i: int| from <= i < data.len() ==> data[i] != 0,
        },
    decreases data.len() - from,
{
    if from < data.len() && data[from] != 0 {
        lemma_null_offset_is_first(data, from + 1);
    }
}

/// The little-endian 16-bit word at the front of `le_bytes`.
pub fn u16_from_bytes(le_bytes: &[u8]) -> (r: u16)
    requires
        le_bytes@.len() >= 2,
    ensures
        r == le_u16(le_bytes@, 0),
{
    le_bytes[0] as u16 + 0x100 * (le_bytes[1] as u16)
}

/// The little-endian 16-bit word at the front of `le_bytes`, in two's complement.
pub fn i16_from_bytes(le_bytes: &[u8]) -> (r: i16)
    requires
        le_bytes@.len() >= 2,
    ensures
        r == as_signed_16(le_u16(le_bytes@, 0)),
{
    let x: u16 = u16_from_bytes(le_bytes);
    if x >= 0x8000 {
        (x as i32 - 0x1_0000) as i16
    } else {
        x as i16
    }
}

/// The little-endian 32-bit word at the front of `le_bytes`.
pub fn u32_from_bytes(le_bytes: &[u8]) -> (r: u32)
    requires
        le_bytes@.len() >= 4,
    ensures
        r == le_u32(le_bytes@, 0),
{
    let lo: u32 = le_bytes[0] as u32 + 0x100 * (le_bytes[1] as u32);
    let hi: u32 = le_bytes[2] as u32 + 0x100 * (le_bytes[3] as u32);
    lo + 0x1_0000 * hi
}

/// The little-endian 64-bit word at the front of `le_bytes`.
pub fn u64_from_bytes(le_bytes: &[u8]) -> (r: u64)
    requires
        le_bytes@.len() >= 8,
    ensures
        r == le_u64(le_bytes@, 0),
{
    let b0: u64 = le_bytes[0] as u64 + 0x100 * (le_bytes[1] as u64);
    let b1: u64 = le_bytes[2] as u64 + 0x100 * (le_bytes[3] as u64);
    let b2: u64 = le_bytes[4] as u64 + 0x100 * (le_bytes[5] as u64);
    let b3: u64 = le_bytes[6] as u64 + 0x100 * (le_bytes[7] as u64);
    let lo: u64 = b0 + 0x1_0000 * b1;
    let hi: u64 = b2 + 0x1_0000 * b3;
    lo + 0x1_0000_0000 * hi
}

/// The little-endian 16-bit word of `data` at `at`, where `data` holds it whole.
pub(crate) fn u16_at(data: &[u8], at: usize) -> (r: Result<u16, PeError>)
    ensures
        at + 2 <= data@.len() ==> r == Ok::<u16, PeError>(le_u16(data@, at as int)),
        at + 2 > data@.len() ==> r == Err::<u16, PeError>(PeError::BoundsError),
{
    if at > data.len() || data.len() - at < 2 {
        return Err(PeError::BoundsError);
    }
    Ok(u16_from_bytes(slice_subrange(data, at, at + 2)))
}

/// The little-endian 32-bit word of `data` at `at`, where `data` holds it whole.
pub(crate) fn u32_at(data: &[u8], at: usize) -> (r: Result<u32, PeError>)
    ensures
        at + 4 <= data@.len() ==> r == Ok::<u32, PeError>(le_u32(data@, at as int)),
        at + 4 > data@.len() ==> r == Err::<u32, PeError>(PeError::BoundsError),
{
    if at > data.len() || data.len() - at < 4 {
        return Err(PeError::BoundsError);
    }
    Ok(u32_from_bytes(slice_subrange(data, at, at + 4)))
}

/// The little-endian 64-bit word of `data` at `at`, where `data` holds it whole.
pub(crate) fn u64_at(data: &[u8], at: usize) -> (r: Result<u64, PeError>)
    ensures
        at + 8 <= data@.len() ==> r == Ok::<u64, PeError>(le_u64(data@, at as int)),
        at + 8 > data@.len() ==> r == Err::<u64, PeError>(PeError::BoundsError),
{
    if at > data.len() || data.len() - at < 8 {
        return Err(PeError::BoundsError);
    }
    Ok(u64_from_bytes(slice_subrange(data, at, at + 8)))
}

/// The bytes of `data` from `start` up to the first zero byte, which is left out.
pub fn read_u8_until_null(start: usize, data: &[u8]) -> (r: Result<&[u8], PeError>)
    ensures
        match null_offset(data@, start as int) {
            Some(end) => r matches Ok(s) && s@ == data@.subrange(start as int, end),
            None => r matches Err(e) && e == PeError::BoundsError,
        },
{
    let mut end: usize = start;
    while end < data.len() && data[end] != 0
        invariant
            start <= end,
            null_offset(data@, start as int) == null_offset(data@, end as int),
        decreases data.len() - end,
    {
        end += 1;
    }
    if end < data.len() {
        Ok(slice_subrange(data, start, end))
    } else {
        Err(PeError::BoundsError)
    }
}

/// `String::from_utf8` of std, with its error dropped: the bytes become a
/// string exactly when they are well-formed UTF-8, and the string then holds
/// those very bytes.
#[verifier::external_body]
pub(crate) fn string_from_utf8(bytes: Vec<u8>) -> (r: Option<String>)
    ensures
        r is Some <==> valid_utf8(bytes@),
        r matches Some(s) ==> encode_utf8(s@) == bytes@,
{
    match String::from_utf8(bytes) {
        Ok(s) => Some(s),
        Err(_) => None,
    }
}

/// `String::push` of std: the character is appended.
#[verifier::external_body]
pub(crate) fn string_push(s: &mut String, c: char)
    ensures
        final(s)@ == old(s)@.push(c),
{
    s.push(c)
}

/// The length of the prefix of `arr` that holds no zero byte.
pub open spec fn text_len(arr: Seq<u8>) -> int {
    match null_offset(arr, 0) {
        Some(end) => end,
        None => arr.len() as int,
    }
}

/// The text of a zero-padded array of single-byte characters: every byte before
/// the first zero, each taken as the character with that code.
pub fn wchar_arr_to_string(arr: &[u8]) -> (r: String)
    ensures
        r@ == Seq::new(text_len(arr@) as nat, |i: int| arr@[i] as char),
{
    let mut result = String::new();
    let mut i: usize = 0;
    proof {
        lemma_null_offset_is_first(arr@, 0);
    }
    while i < arr.len() && arr[i] != 0
        invariant
            i <= text_len(arr@) <= arr@.len(),
            forall|k: int| 0 <= k < text_len(arr@) ==> arr@[k] != 0,
            text_len(arr@) < arr@.len() ==> arr@[text_len(arr@)] == 0,
            result@ == Seq::new(i as nat, |k: int| arr@[k] as char),
        decreases arr.len() - i,
    {
        string_push(&mut result, arr[i] as char);
        i += 1;
    }
    result
}

/// The top bit of a 64-bit word, as 0 or 1.
pub fn get_msb_u64(num: u64) -> (r: u64)
    ensures
        r == if num >= 0x8000_0000_0000_0000 { 1u64 } else { 0u64 },
{
    assert((num >> 63) & 1 == if num >= 0x8000_0000_0000_0000 { 1u64 } else { 0u64 })
        by (bit_vector);
    (num >> 63) & 1
}

/// The top bit of a 32-bit word, as 0 or 1.
pub fn get_msb_u32(num: u32) -> (r: u32)
    ensures
        r == if num >= 0x8000_0000 { 1u32 } else { 0u32 },
{
    assert((num >> 31) & 1 == if num >= 0x8000_0000 { 1u32 } else { 0u32 }) by (bit_vector);
    (num >> 31) & 1
}

} // verus!
