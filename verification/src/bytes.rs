//! Big-endian field extraction from byte buffers.
//!
//! Network protocol headers store multi-byte fields in big-endian order.
//! Each spec function here gives the mathematical value of such a field,
//! and each exec function reads it from a slice and is proved to return
//! exactly that value.

use vstd::prelude::*;

verus! {

/// The value of the big-endian 16-bit field at offset `i` of `b`.
pub open spec fn be16(b: Seq<u8>, i: int) -> int {
    b[i] * 0x100 + b[i + 1]
}

/// The value of the big-endian 32-bit field at offset `i` of `b`.
pub open spec fn be32(b: Seq<u8>, i: int) -> int {
    b[i] * 0x1000000 + b[i + 1] * 0x10000 + b[i + 2] * 0x100 + b[i + 3]
}

/// The value of the big-endian 48-bit field at offset `i` of `b`,
/// the width of a hardware (MAC) address.
pub open spec fn be48(b: Seq<u8>, i: int) -> int {
    b[i] * 0x10000000000 + b[i + 1] * 0x100000000 + b[i + 2] * 0x1000000 + b[i + 3] * 0x10000
        + b[i + 4] * 0x100 + b[i + 5]
}

/// The value of the big-endian 128-bit field at offset `i` of `b`,
/// the width of an IPv6 address.
pub open spec fn be128(b: Seq<u8>, i: int) -> int {
    b[i] * 0x1000000000000000000000000000000 + b[i + 1] * 0x10000000000000000000000000000 + b[i
        + 2] * 0x100000000000000000000000000 + b[i + 3] * 0x1000000000000000000000000 + b[i + 4]
        * 0x10000000000000000000000 + b[i + 5] * 0x100000000000000000000 + b[i + 6]
        * 0x1000000000000000000 + b[i + 7] * 0x10000000000000000 + b[i + 8] * 0x100000000000000 + b[
        i + 9] * 0x1000000000000 + b[i + 10] * 0x10000000000 + b[i + 11] * 0x100000000 + b[i + 12]
        * 0x1000000 + b[i + 13] * 0x10000 + b[i + 14] * 0x100 + b[i + 15]
}

/// Reads the big-endian 16-bit field at offset `i` of `b`.
pub fn read_be16(b: &[u8], i: usize) -> (r: u16)
    requires
        i + 2 <= b@.len(),
    ensures
        r == be16(b@, i as int),
{
    (b[i] as u16) * 0x100 + (b[i + 1] as u16)
}

/// Reads the big-endian 32-bit field at offset `i` of `b`.
pub fn read_be32(b: &[u8], i: usize) -> (r: u32)
    requires
        i + 4 <= b@.len(),
    ensures
        r == be32(b@, i as int),
{
    (b[i] as u32) * 0x1000000 + (b[i + 1] as u32) * 0x10000 + (b[i + 2] as u32) * 0x100 + (b[i
        + 3] as u32)
}

/// Reads the big-endian 48-bit field at offset `i` of `b` into the low
/// six bytes of a `u64`.
pub fn read_be48(b: &[u8], i: usize) -> (r: u64)
    requires
        i + 6 <= b@.len(),
    ensures
        r == be48(b@, i as int),
{
    (b[i] as u64) * 0x10000000000 + (b[i + 1] as u64) * 0x100000000 + (b[i + 2] as u64) * 0x1000000
        + (b[i + 3] as u64) * 0x10000 + (b[i + 4] as u64) * 0x100 + (b[i + 5] as u64)
}

/// Reads the big-endian 128-bit field at offset `i` of `b`.
pub fn read_be128(b: &[u8], i: usize) -> (r: u128)
    requires
        i + 16 <= b@.len(),
    ensures
        r == be128(b@, i as int),
{
    (b[i] as u128) * 0x1000000000000000000000000000000 + (b[i + 1] as u128)
        * 0x10000000000000000000000000000 + (b[i + 2] as u128) * 0x100000000000000000000000000 + (b[
        i + 3] as u128) * 0x1000000000000000000000000 + (b[i + 4] as u128)
        * 0x10000000000000000000000 + (b[i + 5] as u128) * 0x100000000000000000000 + (b[i
        + 6] as u128) * 0x1000000000000000000 + (b[i + 7] as u128) * 0x10000000000000000 + (b[i
        + 8] as u128) * 0x100000000000000 + (b[i + 9] as u128) * 0x1000000000000 + (b[i
        + 10] as u128) * 0x10000000000 + (b[i + 11] as u128) * 0x100000000 + (b[i + 12] as u128)
        * 0x1000000 + (b[i + 13] as u128) * 0x10000 + (b[i + 14] as u128) * 0x100 + (b[i
        + 15] as u128)
}

} // verus!
