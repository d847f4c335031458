//! Little-endian reads of fixed-width integers at fixed offsets of a buffer.
use vstd::prelude::*;

verus! {

/// The value of the two bytes at `at`, least significant first.
pub open spec fn le16(b: Seq<u8>, at: int) -> int {
    b[at] as int + 0x100 * b[at + 1] as int
}

/// The value of the four bytes at `at`, least significant first.
pub open spec fn le32(b: Seq<u8>, at: int) -> int {
    le16(b, at) + 0x1_0000 * le16(b, at + 2)
}

/// The value of the eight bytes at `at`, least significant first.
pub open spec fn le64(b: Seq<u8>, at: int) -> int {
    le32(b, at) + 0x1_0000_0000 * le32(b, at + 4)
}

/// Reads a `u16` stored little-endian at `at`.
pub fn read_u16_le(b: &[u8], at: usize) -> (r: u16)
    requires
        at + 2 <= b@.len(),
    ensures
        r as int == le16(b@, at as int),
{
    b[at] as u16 + 0x100 * (b[at + 1] as u16)
}

/// Reads a `u32` stored little-endian at `at`.
pub fn read_u32_le(b: &[u8], at: usize) -> (r: u32)
    requires
        at + 4 <= b@.len(),
    ensures
        r as int == le32(b@, at as int),
{
    // The call tells Verus that the length, and so `at` plus the width, fits in a usize.
    let _len: usize = b.len();
    let lo = read_u16_le(b, at);
    let hi = read_u16_le(b, at + 2);
    lo as u32 + 0x1_0000 * (hi as u32)
}

/// Reads a `u64` stored little-endian at `at`.
pub fn read_u64_le(b: &[u8], at: usize) -> (r: u64)
    requires
        at + 8 <= b@.len(),
    ensures
        r as int == le64(b@, at as int),
{
    // The call tells Verus that the length, and so `at` plus the width, fits in a usize.
    let _len: usize = b.len();
    let lo = read_u32_le(b, at);
    let hi = read_u32_le(b, at + 4);
    lo as u64 + 0x1_0000_0000 * (hi as u64)
}

} // verus!
