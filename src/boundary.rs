//! The scalar-only calling convention between guest and host: text travels
//! as a pointer and a length into guest memory, and a failure's location as
//! a file range plus line and column, with a zero file range for "no
//! location".
use vstd::prelude::*;
use crate::memory::{decode_spec, decode_utf8, DecodeError, MemoryPointer};
use crate::panic_info::{PanicInfo, PanicLocation};
use crate::channel::PanicChannel;
use crate::text::{decimal, decimal_string};

verus! {

/// The six scalars of a `register_panic` call.
#[derive(Clone, Copy, Debug, PartialEq, Eq, Structural)]
pub struct PanicCall {
    pub msg_ptr: u32,
    pub msg_len: u32,
    pub file_ptr: u32,
    pub file_len: u32,
    pub line: u32,
    pub column: u32,
}

/// A failure location as the guest holds it: its file's range in guest
/// memory, line and column.
#[derive(Clone, Copy, Debug, PartialEq, Eq, Structural)]
pub struct GuestLocation {
    pub file: MemoryPointer,
    pub line: u32,
    pub column: u32,
}

impl PanicCall {
    /// The range of the message.
    pub open spec fn message_spec(self) -> MemoryPointer {
        MemoryPointer { offset: self.msg_ptr, length: self.msg_len }
    }

    /// The range of the file name.
    pub open spec fn file_spec(self) -> MemoryPointer {
        MemoryPointer { offset: self.file_ptr, length: self.file_len }
    }

    /// A location is present unless the file range is the zero sentinel.
    pub open spec fn has_location_spec(self) -> bool {
        !(self.file_ptr == 0 && self.file_len == 0)
    }

    /// The range of the message.
    pub fn message(&self) -> (r: MemoryPointer)
        ensures
            r == self.message_spec(),
    {
        MemoryPointer { offset: self.msg_ptr, length: self.msg_len }
    }

    /// The range of the file name.
    pub fn file(&self) -> (r: MemoryPointer)
        ensures
            r == self.file_spec(),
    {
        MemoryPointer { offset: self.file_ptr, length: self.file_len }
    }

    /// Whether the call carries a location: a zero file pointer with a zero
    /// length means that it does not.
    pub fn has_location(&self) -> (r: bool)
        ensures
            r == self.has_location_spec(),
    {
        !(self.file_ptr == 0 && self.file_len == 0)
    }
}

/// The call that reports a failure with the message at `message` and the
/// given location; with no location, the file range, line and column are zero.
pub open spec fn encode_spec(message: MemoryPointer, location: Option<GuestLocation>) -> PanicCall {
    match location {
        Some(loc) => PanicCall {
            msg_ptr: message.offset,
            msg_len: message.length,
            file_ptr: loc.file.offset,
            file_len: loc.file.length,
            line: loc.line,
            column: loc.column,
        },
        None => PanicCall {
            msg_ptr: message.offset,
            msg_len: message.length,
            file_ptr: 0,
            file_len: 0,
            line: 0,
            column: 0,
        },
    }
}

/// Marshals a guest failure into the scalars of a `register_panic` call.
pub fn encode_panic_call(message: MemoryPointer, location: Option<GuestLocation>) -> (r: PanicCall)
    ensures
        r == encode_spec(message, location),
{
    match location {
        Some(loc) => PanicCall {
            msg_ptr: message.offset,
            msg_len: message.length,
            file_ptr: loc.file.offset,
            file_len: loc.file.length,
            line: loc.line,
            column: loc.column,
        },
        None => PanicCall {
            msg_ptr: message.offset,
            msg_len: message.length,
            file_ptr: 0,
            file_len: 0,
            line: 0,
            column: 0,
        },
    }
}

/// What the host reads from `call` in `memory`: the message's text, then,
/// unless the file range is the sentinel, the file's text with line and
/// column. The first range that fails to decode gives the error.
pub open spec fn decode_panic_spec(memory: Seq<u8>, call: PanicCall) -> Result<
    (Seq<char>, Option<(Seq<char>, u32, u32)>),
    DecodeError,
> {
    match decode_spec(memory, call.message_spec()) {
        Err(e) => Err(e),
        Ok(message) => if !call.has_location_spec() {
            Ok((message, None))
        } else {
            match decode_spec(memory, call.file_spec()) {
                Err(e) => Err(e),
                Ok(file) => Ok((message, Some((file, call.line, call.column)))),
            }
        },
    }
}

/// The view of a decoded record, for comparison with `decode_panic_spec`.
pub open spec fn info_result_view(r: Result<PanicInfo, DecodeError>) -> Result<
    (Seq<char>, Option<(Seq<char>, u32, u32)>),
    DecodeError,
> {
    match r {
        Ok(info) => Ok(info@),
        Err(e) => Err(e),
    }
}

/// Reads the failure record that a `register_panic` call describes.
pub fn decode_panic(memory: &[u8], call: PanicCall) -> (r: Result<PanicInfo, DecodeError>)
    ensures
        info_result_view(r) == decode_panic_spec(memory@, call),
{
    let message = match decode_utf8(memory, call.message()) {
        Ok(m) => m,
        Err(e) => return Err(e),
    };
    if !call.has_location() {
        return Ok(PanicInfo { message, location: None });
    }
    match decode_utf8(memory, call.file()) {
        Ok(file) => Ok(
            PanicInfo {
                message,
                location: Some(PanicLocation { file, line: call.line, column: call.column }),
            },
        ),
        Err(e) => Err(e),
    }
}

/// The host side of `register_panic`: decodes the record and stores it in
/// the channel. When a range fails to decode, the channel is left as it was.
pub fn register_panic(channel: &mut PanicChannel, memory: &[u8], call: PanicCall) -> (r: Result<
    (),
    DecodeError,
>)
    ensures
        match decode_panic_spec(memory@, call) {
            Ok(v) => {
                &&& r is Ok
                &&& final(channel)@ is Some
                &&& final(channel)@.unwrap()@ == v
            },
            Err(e) => r == Err::<(), DecodeError>(e) && final(channel)@ == old(channel)@,
        },
{
    match decode_panic(memory, call) {
        Ok(info) => {
            channel.set(info);
            Ok(())
        },
        Err(e) => Err(e),
    }
}

/// `count: text`, the line that `print_str2` prints.
pub open spec fn counted_spec(count: nat, text: Seq<char>) -> Seq<char> {
    decimal(count) + seq![':', ' '] + text
}

/// The line that `print_str2` prints: the shared count, a colon and the text.
pub fn counted_text(count: usize, text: &str) -> (r: String)
    ensures
        r@ == counted_spec(count as nat, text@),
{
    proof {
        reveal_strlit(": ");
    }
    let mut s = decimal_string(count as u64);
    s.append(": ");
    s.append(text);
    assert(s@ =~= counted_spec(count as nat, text@));
    s
}

/// `Hello ` followed by the text, the greeting that the guest builds for a
/// string that the host hands it.
pub open spec fn greeting_spec(name: Seq<char>) -> Seq<char> {
    seq!['H', 'e', 'l', 'l', 'o', ' '] + name
}

/// The greeting for `name`.
pub fn greeting(name: &str) -> (r: String)
    ensures
        r@ == greeting_spec(name@),
{
    proof {
        reveal_strlit("Hello ");
    }
    let mut s = String::from_str("Hello ");
    s.append(name);
    assert(s@ =~= greeting_spec(name@));
    s
}

} // verus!

verus! {

/// A file pointer and a file length that are both zero mean "no location":
/// such a call never decodes to a location with an empty file name.
pub proof fn lemma_sentinel_means_no_location(memory: Seq<u8>, call: PanicCall)
    requires
        call.file_ptr == 0,
        call.file_len == 0,
    ensures
        decode_panic_spec(memory, call) matches Ok(v) ==> v.1 is None,
{
}

/// The host reads a location from an encoded call exactly when the guest
/// encoded one, provided that a present location's file range is not the
/// zero range itself.
pub proof fn lemma_location_presence_round_trip(
    message: MemoryPointer,
    location: Option<GuestLocation>,
)
    requires
        location matches Some(loc) ==> !(loc.file.offset == 0 && loc.file.length == 0),
    ensures
        encode_spec(message, location).has_location_spec() == location is Some,
        encode_spec(message, location).message_spec() == message,
        location matches Some(loc) ==> {
            &&& encode_spec(message, location).file_spec() == loc.file
            &&& encode_spec(message, location).line == loc.line
            &&& encode_spec(message, location).column == loc.column
        },
{
}

} // verus!
