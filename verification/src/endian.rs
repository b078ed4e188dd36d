//! Little-endian integer layout: the mathematical meaning of the byte order
//! on the wire, and the calls into `byteorder` that produce and consume it.

use byteorder::{ByteOrder, LittleEndian};
use vstd::prelude::*;

verus! {

/// Byte 0 (the least significant) of the two's-complement form of `v`.
pub open spec fn byte0(v: int) -> u8 {
    (v % 256) as u8
}

/// Byte 1 of the two's-complement form of `v`.
pub open spec fn byte1(v: int) -> u8 {
    ((v / 256) % 256) as u8
}

/// Byte 2 of the two's-complement form of `v`.
pub open spec fn byte2(v: int) -> u8 {
    ((v / 65536) % 256) as u8
}

/// Byte 3 of the two's-complement form of `v`.
pub open spec fn byte3(v: int) -> u8 {
    ((v / 16777216) % 256) as u8
}

/// The signed 16-bit value of two bytes, least significant first.
pub open spec fn i16_of_le(b0: u8, b1: u8) -> i16 {
    let unsigned = b0 as int + 256 * (b1 as int);
    if unsigned < 32768 {
        unsigned as i16
    } else {
        (unsigned - 65536) as i16
    }
}

/// The unsigned 32-bit value of four bytes, least significant first.
pub open spec fn u32_of_le(b0: u8, b1: u8, b2: u8, b3: u8) -> u32 {
    (b0 as int + 256 * (b1 as int) + 65536 * (b2 as int) + 16777216 * (b3 as int)) as u32
}

/// Splitting a signed 16-bit value into bytes and joining them again gives
/// the value back.
pub proof fn lemma_i16_round_trip(v: i16)
    ensures
        i16_of_le(byte0(v as int), byte1(v as int)) == v,
{
}

/// Joining two bytes into a signed 16-bit value and splitting it again gives
/// the bytes back.
pub proof fn lemma_i16_bytes_round_trip(b0: u8, b1: u8)
    ensures
        byte0(i16_of_le(b0, b1) as int) == b0,
        byte1(i16_of_le(b0, b1) as int) == b1,
{
}

/// Splitting an unsigned 32-bit value into bytes and joining them again
/// gives the value back.
pub proof fn lemma_u32_round_trip(v: u32)
    ensures
        u32_of_le(byte0(v as int), byte1(v as int), byte2(v as int), byte3(v as int)) == v,
{
}

/// Joining four bytes into an unsigned 32-bit value and splitting it again
/// gives the bytes back.
pub proof fn lemma_u32_bytes_round_trip(b0: u8, b1: u8, b2: u8, b3: u8)
    ensures
        byte0(u32_of_le(b0, b1, b2, b3) as int) == b0,
        byte1(u32_of_le(b0, b1, b2, b3) as int) == b1,
        byte2(u32_of_le(b0, b1, b2, b3) as int) == b2,
        byte3(u32_of_le(b0, b1, b2, b3) as int) == b3,
{
}

/// Reads a signed 16-bit integer from the first two bytes of `buf`.
///
/// Trusted: `byteorder::LittleEndian::read_i16` is taken to return the
/// two's-complement value whose low byte is `buf[0]` and whose high byte is
/// `buf[1]`. It panics on fewer than two bytes, which the precondition
/// rules out.
#[verifier::external_body]
pub(crate) fn read_i16(buf: &[u8]) -> (v: i16)
    requires
        buf@.len() >= 2,
    ensures
        v == i16_of_le(buf@[0], buf@[1]),
{
    LittleEndian::read_i16(buf)
}

/// Reads an unsigned 32-bit integer from the first four bytes of `buf`.
///
/// Trusted: `byteorder::LittleEndian::read_u32` is taken to return the value
/// whose bytes, least significant first, are `buf[0]` to `buf[3]`. It panics
/// on fewer than four bytes, which the precondition rules out.
#[verifier::external_body]
pub(crate) fn read_u32(buf: &[u8]) -> (v: u32)
    requires
        buf@.len() >= 4,
    ensures
        v == u32_of_le(buf@[0], buf@[1], buf@[2], buf@[3]),
{
    LittleEndian::read_u32(buf)
}

/// Writes a signed 16-bit integer into the first two bytes of `buf`.
///
/// Trusted: `byteorder::LittleEndian::write_i16` is taken to store the low
/// byte of `n` at `buf[0]` and the high byte at `buf[1]`, and to leave every
/// other byte and the length as they were. It panics on fewer than two
/// bytes, which the precondition rules out.
#[verifier::external_body]
pub(crate) fn write_i16(buf: &mut [u8], n: i16)
    requires
        old(buf)@.len() >= 2,
    ensures
        final(buf)@ == old(buf)@.update(0, byte0(n as int)).update(1, byte1(n as int)),
{
    LittleEndian::write_i16(buf, n)
}

/// Writes an unsigned 32-bit integer into the first four bytes of `buf`.
///
/// Trusted: `byteorder::LittleEndian::write_u32` is taken to store the bytes
/// of `n`, least significant first, at `buf[0]` to `buf[3]`, and to leave
/// every other byte and the length as they were. It panics on fewer than
/// four bytes, which the precondition rules out.
#[verifier::external_body]
pub(crate) fn write_u32(buf: &mut [u8], n: u32)
    requires
        old(buf)@.len() >= 4,
    ensures
        final(buf)@ == old(buf)@.update(0, byte0(n as int)).update(1, byte1(n as int)).update(
            2,
            byte2(n as int),
        ).update(3, byte3(n as int)),
{
    LittleEndian::write_u32(buf, n)
}

} // verus!
