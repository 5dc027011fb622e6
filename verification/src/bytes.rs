//! Little-endian integers inside account data.

use vstd::prelude::*;

verus! {

/// The unsigned 64-bit integer that the eight bytes of `s` from `off` on
/// encode, least significant byte first.
pub open spec fn le_u64(s: Seq<u8>, off: int) -> int {
    s[off] as int
        + 0x100 * (s[off + 1] as int)
        + 0x1_0000 * (s[off + 2] as int)
        + 0x100_0000 * (s[off + 3] as int)
        + 0x1_0000_0000 * (s[off + 4] as int)
        + 0x100_0000_0000 * (s[off + 5] as int)
        + 0x1_0000_0000_0000 * (s[off + 6] as int)
        + 0x100_0000_0000_0000 * (s[off + 7] as int)
}

/// Reads the little-endian `u64` at `off`.
pub(crate) fn read_u64(bytes: &[u8], off: usize) -> (x: u64)
    requires
        off + 8 <= bytes@.len(),
    ensures
        x == le_u64(bytes@, off as int),
{
    let b0: u64 = bytes[off] as u64;
    let b1: u64 = bytes[off + 1] as u64;
    let b2: u64 = bytes[off + 2] as u64;
    let b3: u64 = bytes[off + 3] as u64;
    let b4: u64 = bytes[off + 4] as u64;
    let b5: u64 = bytes[off + 5] as u64;
    let b6: u64 = bytes[off + 6] as u64;
    let b7: u64 = bytes[off + 7] as u64;
    b0 + 0x100 * b1 + 0x1_0000 * b2 + 0x100_0000 * b3 + 0x1_0000_0000 * b4
        + 0x100_0000_0000 * b5 + 0x1_0000_0000_0000 * b6 + 0x100_0000_0000_0000 * b7
}

} // verus!
