use vstd::prelude::*;
use vstd::slice::slice_index_get;
use vstd::slice::slice_subrange;
use vstd::slice::slice_to_vec;

verus! {

/// The little-endian 16-bit integer held in `s[i]` and `s[i + 1]`.
pub open spec fn spec_u16_le(s: Seq<u8>, i: int) -> u16
    recommends
        0 <= i,
        i + 2 <= s.len(),
{
    (s[i] as u16) | ((s[i + 1] as u16) << 8)
}

/// The little-endian 32-bit integer held in `s[i]` through `s[i + 3]`.
pub open spec fn spec_u32_le(s: Seq<u8>, i: int) -> u32
    recommends
        0 <= i,
        i + 4 <= s.len(),
{
    (s[i] as u32) | ((s[i + 1] as u32) << 8) | ((s[i + 2] as u32) << 16) | ((s[i + 3] as u32)
        << 24)
}

/// Reads the little-endian 16-bit integer at offset `i` of `b`.
pub fn read_u16_le(b: &[u8], i: usize) -> (r: u16)
    requires
        i + 2 <= b@.len(),
    ensures
        r == spec_u16_le(b@, i as int),
{
    let n: usize = b.len();
    assert(i + 2 <= n);
    let lo = *slice_index_get(b, i);
    let hi = *slice_index_get(b, i + 1);
    (lo as u16) | ((hi as u16) << 8)
}

/// Reads the little-endian 32-bit integer at offset `i` of `b`.
pub fn read_u32_le(b: &[u8], i: usize) -> (r: u32)
    requires
        i + 4 <= b@.len(),
    ensures
        r == spec_u32_le(b@, i as int),
{
    let n: usize = b.len();
    assert(i + 4 <= n);
    let b0 = *slice_index_get(b, i);
    let b1 = *slice_index_get(b, i + 1);
    let b2 = *slice_index_get(b, i + 2);
    let b3 = *slice_index_get(b, i + 3);
    (b0 as u32) | ((b1 as u32) << 8) | ((b2 as u32) << 16) | ((b3 as u32) << 24)
}

/// Copies `b[i..j]` into a fresh vector.
pub fn copy_range(b: &[u8], i: usize, j: usize) -> (v: Vec<u8>)
    requires
        i <= j <= b@.len(),
    ensures
        v@ == b@.subrange(i as int, j as int),
{
    slice_to_vec(slice_subrange(b, i, j))
}

} // verus!
