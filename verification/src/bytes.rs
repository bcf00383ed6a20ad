//! Little-endian byte views of the multi-byte fields.
//!
//! Every multi-byte field of a configuration block is stored least-significant
//! byte first. The spec functions here say which byte of a word stands at
//! which offset, and the executable helpers produce exactly those bytes.

use vstd::prelude::*;

verus! {

/// Byte `k` (0 = least significant) of the little-endian encoding of `x`.
pub open spec fn u32_le_byte(x: u32, k: int) -> u8 {
    if k == 0 {
        (x % 0x100) as u8
    } else if k == 1 {
        ((x / 0x100) % 0x100) as u8
    } else if k == 2 {
        ((x / 0x10000) % 0x100) as u8
    } else {
        ((x / 0x1000000) % 0x100) as u8
    }
}

/// Byte `k` (0 = least significant) of the little-endian encoding of `x`.
pub open spec fn u16_le_byte(x: u16, k: int) -> u8 {
    if k == 0 {
        (x % 0x100) as u8
    } else {
        ((x / 0x100) % 0x100) as u8
    }
}

/// Extract byte `k` of the little-endian encoding of `x`.
pub fn u32_le_byte_at(x: u32, k: usize) -> (b: u8)
    requires
        k < 4,
    ensures
        b == u32_le_byte(x, k as int),
{
    if k == 0 {
        (x % 0x100) as u8
    } else if k == 1 {
        ((x / 0x100) % 0x100) as u8
    } else if k == 2 {
        ((x / 0x10000) % 0x100) as u8
    } else {
        ((x / 0x1000000) % 0x100) as u8
    }
}

/// Extract byte `k` of the little-endian encoding of `x`.
pub fn u16_le_byte_at(x: u16, k: usize) -> (b: u8)
    requires
        k < 2,
    ensures
        b == u16_le_byte(x, k as int),
{
    if k == 0 {
        (x % 0x100) as u8
    } else {
        ((x / 0x100) % 0x100) as u8
    }
}

} // verus!
