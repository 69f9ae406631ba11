//! 32-bit words as bytes, least significant byte first: the order in which
//! the command FIFOs of the IP core carry the bytes of a frame.

use byteorder::{ByteOrder, LittleEndian};
use vstd::prelude::*;

verus! {

/// The four bytes of `value`, least significant first.
pub open spec fn le_bytes(value: u32) -> Seq<u8> {
    seq![
        (value % 256) as u8,
        ((value / 0x100) % 256) as u8,
        ((value / 0x1_0000) % 256) as u8,
        (value / 0x100_0000) as u8,
    ]
}

/// The value whose bytes, least significant first, are the first four of
/// `src`.
pub open spec fn le_value(src: Seq<u8>) -> u32 {
    (src[0] + src[1] * 0x100 + src[2] * 0x1_0000 + src[3] * 0x100_0000) as u32
}

/// Reading the bytes of a value gives the value.
pub proof fn lemma_le_value_of_bytes(value: u32)
    ensures
        le_bytes(value).len() == 4,
        le_value(le_bytes(value)) == value,
{
    assert(value % 256 + ((value / 0x100) % 256) * 0x100 + ((value / 0x1_0000) % 256) * 0x1_0000 + (
    value / 0x100_0000) * 0x100_0000 == value && value / 0x100_0000 < 256) by (bit_vector);
}

/// Writing the value of four bytes gives the bytes.
pub proof fn lemma_le_bytes_of_value(src: Seq<u8>)
    requires
        src.len() == 4,
    ensures
        le_bytes(le_value(src)) == src,
{
    let b0: u32 = src[0] as u32;
    let b1: u32 = src[1] as u32;
    let b2: u32 = src[2] as u32;
    let b3: u32 = src[3] as u32;
    let value: u32 = le_value(src);
    assert(b0 < 256 && b1 < 256 && b2 < 256 && b3 < 256 && value == b0 + b1 * 0x100 + b2 * 0x1_0000
        + b3 * 0x100_0000 ==> value % 256 == b0 && (value / 0x100) % 256 == b1 && (value
        / 0x1_0000) % 256 == b2 && value / 0x100_0000 == b3) by (bit_vector);
    assert(le_bytes(value) =~= src);
}

/// `byteorder::LittleEndian::read_u32`: the value of the first four bytes of
/// `buf`, read least significant byte first. The outside function panics on
/// a shorter buffer.
#[verifier::external_body]
pub(crate) fn read_u32(buf: &[u8]) -> (value: u32)
    requires
        buf@.len() >= 4,
    ensures
        value == le_value(buf@),
{
    LittleEndian::read_u32(buf)
}

/// `byteorder::LittleEndian::write_u32` on a buffer of four bytes: the
/// bytes of `value`, least significant first.
#[verifier::external_body]
pub(crate) fn write_u32(value: u32) -> (bytes: [u8; 4])
    ensures
        bytes@ == le_bytes(value),
{
    let mut bytes = [0u8; 4];
    LittleEndian::write_u32(&mut bytes, value);
    bytes
}

} // verus!
