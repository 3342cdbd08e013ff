//! What travels over the wire: the size of one read and the fixed reply.

use vstd::prelude::*;
use vstd::utf8::*;

verus! {

/// Capacity of the fresh buffer that stages one read.
pub const BUF_SIZE: usize = 1024;

/// The fixed acknowledgment, `+OK` followed by carriage return and line feed.
pub open spec fn ack_bytes() -> Seq<u8> {
    seq![0x2bu8, 0x4fu8, 0x4bu8, 0x0du8, 0x0au8]
}

/// Builds the acknowledgment that answers every chunk of input.
pub fn acknowledgment() -> (ack: Vec<u8>)
    ensures
        ack@ == ack_bytes(),
{
    let mut ack: Vec<u8> = Vec::with_capacity(5);
    ack.push(0x2bu8);
    ack.push(0x4fu8);
    ack.push(0x4bu8);
    ack.push(0x0du8);
    ack.push(0x0au8);
    ack
}

/// A fresh, empty buffer for one read, allocated with room for `BUF_SIZE`
/// bytes. Nothing is carried over from one read to the next.
pub fn fresh_buffer() -> (buf: Vec<u8>)
    ensures
        buf@ == Seq::<u8>::empty(),
{
    Vec::with_capacity(BUF_SIZE)
}

/// The text that lossy UTF-8 decoding makes of `bytes`: every well-formed
/// part decoded, every ill-formed part replaced by U+FFFD.
pub uninterp spec fn lossy_text(bytes: Seq<u8>) -> Seq<char>;

/// Calls `String::from_utf8_lossy` and takes ownership of what it returns.
///
/// Trusted: the result is a function of the bytes alone, named `lossy_text`,
/// and bytes that already are UTF-8 come back as the string they encode.
#[verifier::external_body]
pub(crate) fn decode_lossy(bytes: &Vec<u8>) -> (text: String)
    ensures
        text@ == lossy_text(bytes@),
        valid_utf8(bytes@) ==> text@ == decode_utf8(bytes@),
{
    String::from_utf8_lossy(bytes).into_owned()
}

} // verus!
