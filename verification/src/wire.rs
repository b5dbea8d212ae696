//! Little-endian integers as the frame stores them.
//!
//! The spec functions say what each integer is; the executable readers hand
//! the bytes to `byteorder` and are trusted to return that value.

use byteorder::{ByteOrder, LittleEndian};
use vstd::prelude::*;

verus! {

/// The unsigned 16-bit integer whose little-endian form is the first two
/// bytes of `bytes`.
pub open spec fn le_u16(bytes: Seq<u8>) -> u16
    recommends
        bytes.len() >= 2,
{
    (bytes[0] as u16) | ((bytes[1] as u16) << 8)
}

/// The unsigned 32-bit integer whose little-endian form is the first four
/// bytes of `bytes`.
pub open spec fn le_u32(bytes: Seq<u8>) -> u32
    recommends
        bytes.len() >= 4,
{
    (bytes[0] as u32) | ((bytes[1] as u32) << 8) | ((bytes[2] as u32) << 16) | ((bytes[3] as u32)
        << 24)
}

/// The signed 16-bit integer stored in the first two bytes of `bytes`,
/// two's complement, little-endian.
pub open spec fn le_i16(bytes: Seq<u8>) -> i16
    recommends
        bytes.len() >= 2,
{
    le_u16(bytes) as i16
}

/// The signed 32-bit integer stored in the first four bytes of `bytes`,
/// two's complement, little-endian.
pub open spec fn le_i32(bytes: Seq<u8>) -> i32
    recommends
        bytes.len() >= 4,
{
    le_u32(bytes) as i32
}

/// The four bytes that store `value` in little-endian order.
pub open spec fn u32_le_bytes(value: u32) -> Seq<u8> {
    seq![
        (value & 0xff) as u8,
        ((value >> 8) & 0xff) as u8,
        ((value >> 16) & 0xff) as u8,
        ((value >> 24) & 0xff) as u8,
    ]
}

/// `byteorder::LittleEndian::read_u16`: the little-endian integer in the
/// first two bytes of `buf`. The crate panics on a shorter slice, which the
/// precondition rules out.
#[verifier::external_body]
pub(crate) fn read_u16_le(buf: &[u8]) -> (value: u16)
    requires
        buf@.len() >= 2,
    ensures
        value == le_u16(buf@),
{
    LittleEndian::read_u16(buf)
}

/// `byteorder::LittleEndian::read_i16`: the crate reads the unsigned
/// integer and reinterprets it as signed.
#[verifier::external_body]
pub(crate) fn read_i16_le(buf: &[u8]) -> (value: i16)
    requires
        buf@.len() >= 2,
    ensures
        value == le_i16(buf@),
{
    LittleEndian::read_i16(buf)
}

/// `byteorder::LittleEndian::read_u32`: the little-endian integer in the
/// first four bytes of `buf`. The crate panics on a shorter slice, which the
/// precondition rules out.
#[verifier::external_body]
pub(crate) fn read_u32_le(buf: &[u8]) -> (value: u32)
    requires
        buf@.len() >= 4,
    ensures
        value == le_u32(buf@),
{
    LittleEndian::read_u32(buf)
}

/// `byteorder::LittleEndian::read_i32`: the crate reads the unsigned
/// integer and reinterprets it as signed.
#[verifier::external_body]
pub(crate) fn read_i32_le(buf: &[u8]) -> (value: i32)
    requires
        buf@.len() >= 4,
    ensures
        value == le_i32(buf@),
{
    LittleEndian::read_i32(buf)
}

/// Storing an integer little-endian and reading it back gives the integer.
pub proof fn lemma_u32_le_round_trip(value: u32)
    ensures
        u32_le_bytes(value).len() == 4,
        le_u32(u32_le_bytes(value)) == value,
{
    let b = u32_le_bytes(value);
    assert(b.len() == 4);
    let b0 = b[0];
    let b1 = b[1];
    let b2 = b[2];
    let b3 = b[3];
    assert(b0 == (value & 0xff) as u8);
    assert(b1 == ((value >> 8) & 0xff) as u8);
    assert(b2 == ((value >> 16) & 0xff) as u8);
    assert(b3 == ((value >> 24) & 0xff) as u8);
    assert(((value & 0xff) as u8 as u32) | ((((value >> 8) & 0xff) as u8 as u32) << 8) | ((((value
        >> 16) & 0xff) as u8 as u32) << 16) | ((((value >> 24) & 0xff) as u8 as u32) << 24)
        == value) by (bit_vector);
}

} // verus!
