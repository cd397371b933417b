//! Big-endian readers for the scalar fields of the font tables.

use vstd::prelude::*;

verus! {

/// Unsigned 16-bit big-endian value starting at byte `i`.
pub open spec fn be16(d: Seq<u8>, i: int) -> int {
    (d[i] as int) * 256 + (d[i + 1] as int)
}

/// Unsigned 32-bit big-endian value starting at byte `i`.
pub open spec fn be32(d: Seq<u8>, i: int) -> int {
    be16(d, i) * 65536 + be16(d, i + 2)
}

/// Signed 16-bit big-endian value (two's complement) starting at byte `i`.
pub open spec fn sbe16(d: Seq<u8>, i: int) -> int {
    if be16(d, i) < 32768 {
        be16(d, i)
    } else {
        be16(d, i) - 65536
    }
}

pub fn read_u16(d: &[u8], i: usize) -> (r: u16)
    requires
        i + 2 <= d@.len(),
    ensures
        r as int == be16(d@, i as int),
{
    (d[i] as u16) * 256 + (d[i + 1] as u16)
}

pub fn read_u32(d: &[u8], i: usize) -> (r: u32)
    requires
        i + 4 <= d@.len(),
    ensures
        r as int == be32(d@, i as int),
{
    // Binding the runtime length bounds `i + 2` by `usize::MAX`.
    let n: usize = d.len();
    (read_u16(d, i) as u32) * 65536 + (read_u16(d, i + 2) as u32)
}

pub fn read_i16(d: &[u8], i: usize) -> (r: i32)
    requires
        i + 2 <= d@.len(),
    ensures
        r as int == sbe16(d@, i as int),
{
    let v = read_u16(d, i);
    if v < 32768 {
        v as i32
    } else {
        (v as i32) - 65536
    }
}

} // verus!
