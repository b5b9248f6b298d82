//! Overlaying a fixed-size record onto a span of raw memory.
use vstd::prelude::*;

verus! {

/// The value of a little-endian 16-bit word made of the bytes `lo` and `hi`.
pub open spec fn le16(lo: u8, hi: u8) -> int {
    lo as int + 256 * (hi as int)
}

/// Decodes a little-endian 16-bit word: `lo` is the byte at the lower address.
pub fn u16_from_le(lo: u8, hi: u8) -> (r: u16)
    ensures
        r == le16(lo, hi),
{
    lo as u16 + (hi as u16) * 256
}

/// Copies the `N` bytes of `mem` that start at `offset`, the shape of a record
/// laid over memory at that offset. There is nothing to overlay where the span
/// runs past the end of `mem`.
pub fn overlay<const N: usize>(mem: &[u8], offset: usize) -> (r: Option<[u8; N]>)
    ensures
        r is Some <==> offset + N <= mem@.len(),
        r matches Some(a) ==> a@ == mem@.subrange(offset as int, offset + N),
{
    if offset > mem.len() || mem.len() - offset < N {
        return None;
    }
    let mut a: [u8; N] = [0u8; N];
    let mut i: usize = 0;
    while i < N
        invariant
            offset + N <= mem.len(),
            i <= N,
            a@.len() == N,
            forall|j: int| 0 <= j < i ==> a@[j] == mem@[offset + j],
        decreases N - i,
    {
        a[i] = mem[offset + i];
        i = i + 1;
    }
    assert(a@ =~= mem@.subrange(offset as int, offset + N));
    Some(a)
}

} // verus!
