//! Little-endian integer fields and NUL-terminated strings inside a byte
//! buffer: the mathematical definitions and the executable readers proved
//! against them.

use vstd::prelude::*;

verus! {

/// Value of the 2-byte little-endian field at offset `i` of `b`.
pub open spec fn le16(b: Seq<u8>, i: int) -> int
    recommends
        0 <= i,
        i + 2 <= b.len(),
{
    b[i] as int + 0x100 * (b[i + 1] as int)
}

/// Value of the 4-byte little-endian field at offset `i` of `b`.
pub open spec fn le32(b: Seq<u8>, i: int) -> int
    recommends
        0 <= i,
        i + 4 <= b.len(),
{
    le16(b, i) + 0x1_0000 * le16(b, i + 2)
}

/// Value of the 8-byte little-endian field at offset `i` of `b`.
pub open spec fn le64(b: Seq<u8>, i: int) -> int
    recommends
        0 <= i,
        i + 8 <= b.len(),
{
    le32(b, i) + 0x1_0000_0000 * le32(b, i + 4)
}

/// Offset of the first NUL byte of `b` at or after `i` and before `end`,
/// if there is one.
pub open spec fn find_nul(b: Seq<u8>, i: int, end: int) -> Option<int>
    recommends
        0 <= i,
        end <= b.len(),
    decreases end - i,
{
    if i >= end {
        None
    } else if b[i] == 0 {
        Some(i)
    } else {
        find_nul(b, i + 1, end)
    }
}

/// Reads the 2-byte little-endian field at offset `i`.
pub fn read_u16(b: &Vec<u8>, i: usize) -> (r: u16)
    requires
        i + 2 <= b.len(),
    ensures
        r as int == le16(b@, i as int),
{
    b[i] as u16 + 0x100 * (b[i + 1] as u16)
}

/// Reads the 4-byte little-endian field at offset `i`.
pub fn read_u32(b: &Vec<u8>, i: usize) -> (r: u32)
    requires
        i + 4 <= b.len(),
    ensures
        r as int == le32(b@, i as int),
{
    b[i] as u32 + 0x100 * (b[i + 1] as u32) + 0x1_0000 * (b[i + 2] as u32)
        + 0x100_0000 * (b[i + 3] as u32)
}

/// Reads the 8-byte little-endian field at offset `i`.
pub fn read_u64(b: &Vec<u8>, i: usize) -> (r: u64)
    requires
        i + 8 <= b.len(),
    ensures
        r as int == le64(b@, i as int),
{
    b[i] as u64 + 0x100 * (b[i + 1] as u64) + 0x1_0000 * (b[i + 2] as u64)
        + 0x100_0000 * (b[i + 3] as u64) + 0x1_0000_0000 * (b[i + 4] as u64)
        + 0x100_0000_0000 * (b[i + 5] as u64) + 0x1_0000_0000_0000 * (b[i + 6] as u64)
        + 0x100_0000_0000_0000 * (b[i + 7] as u64)
}

/// Copies the bytes of `b` in `[start, end)` into a fresh vector.
pub fn copy_range(b: &Vec<u8>, start: usize, end: usize) -> (r: Vec<u8>)
    requires
        start <= end <= b.len(),
    ensures
        r@ == b@.subrange(start as int, end as int),
{
    let mut r: Vec<u8> = Vec::new();
    let mut j: usize = start;
    while j < end
        invariant
            start <= j <= end <= b@.len(),
            r@ == b@.subrange(start as int, j as int),
        decreases end - j,
    {
        r.push(b[j]);
        assert(r@ =~= b@.subrange(start as int, j + 1 as int));
        j = j + 1;
    }
    r
}

} // verus!
