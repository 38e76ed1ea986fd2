use vstd::prelude::*;

use byteorder::{ByteOrder, LittleEndian};

verus! {

/// The value of the two little-endian bytes at `offset`.
pub open spec fn le16(b: Seq<u8>, offset: int) -> u16 {
    (b[offset] + b[offset + 1] * 0x100) as u16
}

/// The value of the four little-endian bytes at `offset`.
pub open spec fn le32(b: Seq<u8>, offset: int) -> u32 {
    (b[offset] + b[offset + 1] * 0x100 + b[offset + 2] * 0x10000 + b[offset + 3]
        * 0x1000000) as u32
}

/// The value of the eight little-endian bytes at `offset`.
pub open spec fn le64(b: Seq<u8>, offset: int) -> u64 {
    (b[offset] + b[offset + 1] * 0x100 + b[offset + 2] * 0x10000 + b[offset + 3] * 0x1000000 + b[
        offset + 4] * 0x100000000 + b[offset + 5] * 0x10000000000 + b[offset + 6]
        * 0x1000000000000 + b[offset + 7] * 0x100000000000000) as u64
}

/// Relies on byteorder's `LittleEndian::read_u16`: the value of the first
/// two bytes of the slice, least significant byte first.
#[verifier::external_body]
pub(crate) fn read_u16_at(buf: &[u8], offset: usize) -> (r: u16)
    requires
        offset + 2 <= buf@.len(),
    ensures
        r == le16(buf@, offset as int),
{
    LittleEndian::read_u16(&buf[offset..offset + 2])
}

/// Relies on byteorder's `LittleEndian::read_u32`: the value of the first
/// four bytes of the slice, least significant byte first.
#[verifier::external_body]
pub(crate) fn read_u32_at(buf: &[u8], offset: usize) -> (r: u32)
    requires
        offset + 4 <= buf@.len(),
    ensures
        r == le32(buf@, offset as int),
{
    LittleEndian::read_u32(&buf[offset..offset + 4])
}

/// Relies on byteorder's `LittleEndian::read_u64`: the value of the first
/// eight bytes of the slice, least significant byte first.
#[verifier::external_body]
pub(crate) fn read_u64_at(buf: &[u8], offset: usize) -> (r: u64)
    requires
        offset + 8 <= buf@.len(),
    ensures
        r == le64(buf@, offset as int),
{
    LittleEndian::read_u64(&buf[offset..offset + 8])
}

} // verus!
