//! A read-only view of guest linear memory.
use vstd::prelude::*;
use vstd::utf8::{decode_utf8 as utf8_chars, valid_utf8};

verus! {

/// A byte range inside guest linear memory, as it crosses the call boundary:
/// a start offset and a length, both 32-bit scalars.
#[derive(Clone, Copy, Debug, PartialEq, Eq, Structural)]
pub struct MemoryPointer {
    pub offset: u32,
    pub length: u32,
}

impl MemoryPointer {
    /// One past the last byte of the range.
    pub open spec fn end(self) -> int {
        self.offset as int + self.length as int
    }

    /// The range lies inside a memory of `size` bytes.
    pub open spec fn fits(self, size: int) -> bool {
        self.end() <= size
    }
}

/// Why a byte range of guest memory could not be read as text.
#[derive(Clone, Copy, Debug, PartialEq, Eq, Structural)]
pub enum DecodeError {
    /// The range reaches past the end of memory.
    OutOfBounds,
    /// The bytes in the range are not UTF-8.
    InvalidUtf8,
}

/// The bytes that `ptr` names in `memory`.
pub open spec fn range_bytes(memory: Seq<u8>, ptr: MemoryPointer) -> Seq<u8> {
    memory.subrange(ptr.offset as int, ptr.end())
}

/// What decoding `ptr` from `memory` yields.
pub open spec fn decode_spec(memory: Seq<u8>, ptr: MemoryPointer) -> Result<Seq<char>, DecodeError> {
    if !ptr.fits(memory.len() as int) {
        Err(DecodeError::OutOfBounds)
    } else if !valid_utf8(range_bytes(memory, ptr)) {
        Err(DecodeError::InvalidUtf8)
    } else {
        Ok(utf8_chars(range_bytes(memory, ptr)))
    }
}

/// The text of a decode result, for comparison with `decode_spec`.
pub open spec fn text_of(r: Result<String, DecodeError>) -> Result<Seq<char>, DecodeError> {
    match r {
        Ok(s) => Ok(s@),
        Err(e) => Err(e),
    }
}

/// Relies on `std::str::from_utf8`: it succeeds exactly when the bytes are
/// valid UTF-8, and the text then holds the characters they encode.
#[verifier::external_body]
fn utf8_text(bytes: &[u8]) -> (r: Option<String>)
    ensures
        r.is_some() <==> valid_utf8(bytes@),
        r matches Some(s) ==> s@ == utf8_chars(bytes@),
{
    std::str::from_utf8(bytes).ok().map(|s| s.to_owned())
}

/// Reads the range `ptr` of `memory` as UTF-8 text. A range that reaches past
/// the end of memory is refused before any byte is read.
pub fn decode_utf8(memory: &[u8], ptr: MemoryPointer) -> (r: Result<String, DecodeError>)
    ensures
        text_of(r) == decode_spec(memory@, ptr),
{
    let start = ptr.offset as usize;
    if ptr.offset as u64 + ptr.length as u64 > memory.len() as u64 {
        return Err(DecodeError::OutOfBounds);
    }
    let end = start + ptr.length as usize;
    let bytes = &memory[start..end];
    match utf8_text(bytes) {
        Some(s) => Ok(s),
        None => Err(DecodeError::InvalidUtf8),
    }
}

} // verus!
