//! Little-endian integers, as the device lays them out on the wire.

use byteorder::{ByteOrder, LittleEndian};
use vstd::prelude::*;

verus! {

/// The two bytes of `n`, least significant first.
pub open spec fn u16_le_bytes(n: u16) -> Seq<u8> {
    seq![(n % 256) as u8, (n / 256) as u8]
}

/// The four bytes of `n`, least significant first.
pub open spec fn u32_le_bytes(n: u32) -> Seq<u8> {
    seq![
        (n % 256) as u8,
        (n / 256 % 256) as u8,
        (n / 65536 % 256) as u8,
        (n / 16777216) as u8,
    ]
}

/// The number whose little-endian layout opens `bytes` (two bytes are read).
pub open spec fn le_u16(bytes: Seq<u8>) -> int
    recommends
        bytes.len() >= 2,
{
    bytes[0] + 256 * bytes[1]
}

/// The number whose little-endian layout opens `bytes` (four bytes are read).
pub open spec fn le_u32(bytes: Seq<u8>) -> int
    recommends
        bytes.len() >= 4,
{
    bytes[0] + 256 * bytes[1] + 65536 * bytes[2] + 16777216 * bytes[3]
}

/// Calls `byteorder::LittleEndian::write_u16` on a fresh two-byte buffer.
/// Trusted: the buffer then holds the low byte of `n`, then its high byte.
#[verifier::external_body]
pub(crate) fn write_u16(n: u16) -> (bytes: [u8; 2])
    ensures
        bytes@ == u16_le_bytes(n),
{
    let mut bytes: [u8; 2] = [0; 2];
    LittleEndian::write_u16(&mut bytes, n);
    bytes
}

/// Calls `byteorder::LittleEndian::write_u32` on a fresh four-byte buffer.
/// Trusted: the buffer then holds the four bytes of `n`, least significant
/// first.
#[verifier::external_body]
pub(crate) fn write_u32(n: u32) -> (bytes: [u8; 4])
    ensures
        bytes@ == u32_le_bytes(n),
{
    let mut bytes: [u8; 4] = [0; 4];
    LittleEndian::write_u32(&mut bytes, n);
    bytes
}

/// Calls `byteorder::LittleEndian::read_u16`, which panics on fewer than two
/// bytes. Trusted: the result is the first byte plus 256 times the second.
#[verifier::external_body]
pub(crate) fn read_u16(buf: &[u8]) -> (n: u16)
    requires
        buf@.len() >= 2,
    ensures
        n == le_u16(buf@),
{
    LittleEndian::read_u16(buf)
}

/// Calls `byteorder::LittleEndian::read_u32`, which panics on fewer than four
/// bytes. Trusted: the result is the sum of the first four bytes, each weighted
/// by its place, least significant first.
#[verifier::external_body]
pub(crate) fn read_u32(buf: &[u8]) -> (n: u32)
    requires
        buf@.len() >= 4,
    ensures
        n == le_u32(buf@),
{
    LittleEndian::read_u32(buf)
}

/// Reading back what was written gives the number again.
pub proof fn lemma_u16_round_trip(n: u16)
    ensures
        u16_le_bytes(n).len() == 2,
        le_u16(u16_le_bytes(n)) == n,
{
}

/// Reading back what was written gives the number again.
pub proof fn lemma_u32_round_trip(n: u32)
    ensures
        u32_le_bytes(n).len() == 4,
        le_u32(u32_le_bytes(n)) == n,
{
}

} // verus!
