//! Multi-byte integer fields of the on-disk structures: little-endian in the
//! table header and the dBase memo stores, big-endian in the FoxPro memo
//! store.

use vstd::prelude::*;

verus! {

/// The unsigned 16-bit value stored little-endian at position `i` of `s`.
pub open spec fn le16_at(s: Seq<u8>, i: int) -> u16 {
    (s[i] + s[i + 1] * 0x100) as u16
}

/// The unsigned 32-bit value stored little-endian at position `i` of `s`.
pub open spec fn le32_at(s: Seq<u8>, i: int) -> u32 {
    (s[i] + s[i + 1] * 0x100 + s[i + 2] * 0x1_0000 + s[i + 3] * 0x100_0000) as u32
}

/// The unsigned 16-bit value stored big-endian at position `i` of `s`.
pub open spec fn be16_at(s: Seq<u8>, i: int) -> u16 {
    (s[i] * 0x100 + s[i + 1]) as u16
}

/// The unsigned 32-bit value stored big-endian at position `i` of `s`.
pub open spec fn be32_at(s: Seq<u8>, i: int) -> u32 {
    (s[i] * 0x100_0000 + s[i + 1] * 0x1_0000 + s[i + 2] * 0x100 + s[i + 3]) as u32
}

pub fn read_le_u16(s: &[u8], i: usize) -> (r: u16)
    requires
        i + 2 <= s@.len(),
    ensures
        r == le16_at(s@, i as int),
{
    s[i] as u16 + s[i + 1] as u16 * 0x100
}

pub fn read_le_u32(s: &[u8], i: usize) -> (r: u32)
    requires
        i + 4 <= s@.len(),
    ensures
        r == le32_at(s@, i as int),
{
    s[i] as u32 + s[i + 1] as u32 * 0x100 + s[i + 2] as u32 * 0x1_0000 + s[i + 3] as u32
        * 0x100_0000
}

pub fn read_be_u16(s: &[u8], i: usize) -> (r: u16)
    requires
        i + 2 <= s@.len(),
    ensures
        r == be16_at(s@, i as int),
{
    s[i] as u16 * 0x100 + s[i + 1] as u16
}

pub fn read_be_u32(s: &[u8], i: usize) -> (r: u32)
    requires
        i + 4 <= s@.len(),
    ensures
        r == be32_at(s@, i as int),
{
    s[i] as u32 * 0x100_0000 + s[i + 1] as u32 * 0x1_0000 + s[i + 2] as u32 * 0x100 + s[i
        + 3] as u32
}

} // verus!
