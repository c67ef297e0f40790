//! A bounds-checked sequential reader over an owned byte buffer.

use crate::pe::PeError;
use crate::util::{
    as_signed_16, i16_from_bytes, le_u16, le_u32, le_u64, string_from_utf8, u16_from_bytes,
    u32_from_bytes, u64_from_bytes,
};
use vstd::prelude::*;
use vstd::slice::{slice_subrange, slice_to_vec};
use vstd::utf8::{decode_utf8, encode_utf8_decode_utf8, valid_utf8};

verus! {

/// A byte buffer and a read position in it.
///
/// Every read either succeeds and moves the position past what it consumed, or
/// fails and leaves the cursor as it was.
pub struct Cursor {
    pub bytes: Vec<u8>,
    pub position: usize,
}

impl Cursor {
    /// The position lies inside the buffer or at its end.
    pub open spec fn wf(&self) -> bool {
        self.position <= self.bytes@.len()
    }

    /// `n` more bytes lie between the position and the end of the buffer.
    pub open spec fn holds(&self, n: int) -> bool {
        self.position + n <= self.bytes@.len()
    }

    /// The `n` bytes at the position.
    pub open spec fn next(&self, n: int) -> Seq<u8> {
        self.bytes@.subrange(self.position as int, self.position + n)
    }

    /// This cursor is `before` moved `n` bytes forward over the same buffer.
    pub open spec fn follows(&self, before: Cursor, n: int) -> bool {
        self.bytes == before.bytes && self.position == before.position + n
    }

    /// A cursor at the start of `bytes`.
    pub fn new(bytes: Vec<u8>) -> (c: Self)
        ensures
            c.bytes == bytes,
            c.position == 0,
            c.wf(),
    {
        Self { bytes, position: 0 }
    }

    /// The offset of the next byte to read.
    pub fn position(&self) -> (p: usize)
        ensures
            p == self.position,
    {
        self.position
    }

    /// Whether `bytes` more bytes can be read.
    pub fn has(&self, bytes: usize) -> (b: bool)
        ensures
            b == self.holds(bytes as int),
            b ==> self.position + bytes <= usize::MAX,
    {
        self.position <= self.bytes.len() && bytes <= self.bytes.len() - self.position
    }

    /// Reads `bytes` bytes as UTF-8 text.
    pub fn read_str(&mut self, bytes: usize) -> (r: Result<String, PeError>)
        ensures
            !old(self).holds(bytes as int) ==> r == Err::<String, PeError>(PeError::BoundsError),
            old(self).holds(bytes as int) && !valid_utf8(old(self).next(bytes as int)) ==> r
                == Err::<String, PeError>(PeError::EncodingError),
            old(self).holds(bytes as int) && valid_utf8(old(self).next(bytes as int)) ==> (
            r matches Ok(s) && s@ == decode_utf8(old(self).next(bytes as int))),
            r is Ok ==> final(self).follows(*old(self), bytes as int),
            r is Ok ==> final(self).wf(),
            r is Err ==> *final(self) == *old(self),
    {
        let start = self.position;
        let raw = self.read(bytes)?;
        match string_from_utf8(raw) {
            Some(s) => {
                proof {
                    encode_utf8_decode_utf8(s@);
                }
                Ok(s)
            },
            None => {
                self.position = start;
                Err(PeError::EncodingError)
            },
        }
    }

    /// Reads `bytes` bytes.
    pub fn read(&mut self, bytes: usize) -> (r: Result<Vec<u8>, PeError>)
        ensures
            old(self).holds(bytes as int) ==> (r matches Ok(v) && v@ == old(self).next(
                bytes as int,
            )),
            !old(self).holds(bytes as int) ==> r == Err::<Vec<u8>, PeError>(PeError::BoundsError),
            r is Ok ==> final(self).follows(*old(self), bytes as int),
            r is Ok ==> final(self).wf(),
            r is Err ==> *final(self) == *old(self),
    {
        if !self.has(bytes) {
            return Err(PeError::BoundsError);
        }
        let end = self.position + bytes;
        let result = slice_to_vec(slice_subrange(self.bytes.as_slice(), self.position, end));
        self.position = end;
        Ok(result)
    }

    /// Moves `bytes` bytes forward without reading them.
    pub fn skip(&mut self, bytes: usize) -> (r: Result<(), PeError>)
        ensures
            old(self).holds(bytes as int) ==> r is Ok,
            !old(self).holds(bytes as int) ==> r == Err::<(), PeError>(PeError::BoundsError),
            r is Ok ==> final(self).follows(*old(self), bytes as int),
            r is Ok ==> final(self).wf(),
            r is Err ==> *final(self) == *old(self),
    {
        if !self.has(bytes) {
            return Err(PeError::BoundsError);
        }
        self.position = self.position + bytes;
        Ok(())
    }

    /// Reads one byte.
    pub fn read_u8(&mut self) -> (r: Result<u8, PeError>)
        ensures
            old(self).holds(1) ==> r == Ok::<u8, PeError>(
                old(self).bytes@[old(self).position as int],
            ),
            !old(self).holds(1) ==> r == Err::<u8, PeError>(PeError::BoundsError),
            r is Ok ==> final(self).follows(*old(self), 1),
            r is Ok ==> final(self).wf(),
            r is Err ==> *final(self) == *old(self),
    {
        if !self.has(1) {
            return Err(PeError::BoundsError);
        }
        let result = self.bytes[self.position];
        self.position = self.position + 1;
        Ok(result)
    }

    /// Reads a little-endian 16-bit word.
    pub fn read_u16(&mut self) -> (r: Result<u16, PeError>)
        ensures
            old(self).holds(2) ==> r == Ok::<u16, PeError>(
                le_u16(old(self).bytes@, old(self).position as int),
            ),
            !old(self).holds(2) ==> r == Err::<u16, PeError>(PeError::BoundsError),
            r is Ok ==> final(self).follows(*old(self), 2),
            r is Ok ==> final(self).wf(),
            r is Err ==> *final(self) == *old(self),
    {
        let raw = self.read(2)?;
        Ok(u16_from_bytes(raw.as_slice()))
    }

    /// Reads a little-endian 16-bit word in two's complement.
    pub fn read_i16(&mut self) -> (r: Result<i16, PeError>)
        ensures
            old(self).holds(2) ==> r == Ok::<i16, PeError>(
                as_signed_16(le_u16(old(self).bytes@, old(self).position as int)),
            ),
            !old(self).holds(2) ==> r == Err::<i16, PeError>(PeError::BoundsError),
            r is Ok ==> final(self).follows(*old(self), 2),
            r is Ok ==> final(self).wf(),
            r is Err ==> *final(self) == *old(self),
    {
        let raw = self.read(2)?;
        Ok(i16_from_bytes(raw.as_slice()))
    }

    /// Reads a little-endian 32-bit word.
    pub fn read_u32(&mut self) -> (r: Result<u32, PeError>)
        ensures
            old(self).holds(4) ==> r == Ok::<u32, PeError>(
                le_u32(old(self).bytes@, old(self).position as int),
            ),
            !old(self).holds(4) ==> r == Err::<u32, PeError>(PeError::BoundsError),
            r is Ok ==> final(self).follows(*old(self), 4),
            r is Ok ==> final(self).wf(),
            r is Err ==> *final(self) == *old(self),
    {
        let raw = self.read(4)?;
        Ok(u32_from_bytes(raw.as_slice()))
    }

    /// Reads a little-endian 64-bit word.
    pub fn read_u64(&mut self) -> (r: Result<u64, PeError>)
        ensures
            old(self).holds(8) ==> r == Ok::<u64, PeError>(
                le_u64(old(self).bytes@, old(self).position as int),
            ),
            !old(self).holds(8) ==> r == Err::<u64, PeError>(PeError::BoundsError),
            r is Ok ==> final(self).follows(*old(self), 8),
            r is Ok ==> final(self).wf(),
            r is Err ==> *final(self) == *old(self),
    {
        let raw = self.read(8)?;
        Ok(u64_from_bytes(raw.as_slice()))
    }
}

} // verus!
