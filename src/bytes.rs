//! Byte-level helpers: big-endian length prefixes and slice copies.

use vstd::prelude::*;

verus! {

/// Big-endian bytes of a 32-bit length prefix.
pub open spec fn be32(n: u32) -> Seq<u8> {
    seq![(n >> 24u32) as u8, (n >> 16u32) as u8, (n >> 8u32) as u8, n as u8]
}

/// The 32-bit number of four big-endian bytes.
pub open spec fn from_be32(a: u8, b: u8, c: u8, d: u8) -> u32 {
    ((a as u32) << 24u32) | ((b as u32) << 16u32) | ((c as u32) << 8u32) | (d as u32)
}

pub proof fn lemma_be32_round_trip(n: u32)
    ensures
        from_be32(be32(n)[0], be32(n)[1], be32(n)[2], be32(n)[3]) == n,
{
    let a = (n >> 24u32) as u8;
    let b = (n >> 16u32) as u8;
    let c = (n >> 8u32) as u8;
    let d = n as u8;
    assert(((a as u32) << 24u32) | ((b as u32) << 16u32) | ((c as u32) << 8u32) | (d as u32) == n)
        by (bit_vector)
        requires
            a == (n >> 24u32) as u8,
            b == (n >> 16u32) as u8,
            c == (n >> 8u32) as u8,
            d == n as u8,
    ;
}

pub proof fn lemma_from_be32_round_trip(a: u8, b: u8, c: u8, d: u8)
    ensures
        be32(from_be32(a, b, c, d)) == seq![a, b, c, d],
{
    let n = from_be32(a, b, c, d);
    assert((n >> 24u32) as u8 == a && (n >> 16u32) as u8 == b && (n >> 8u32) as u8 == c && n as u8 == d)
        by (bit_vector)
        requires
            n == ((a as u32) << 24u32) | ((b as u32) << 16u32) | ((c as u32) << 8u32) | (d as u32),
    ;
    assert(be32(n) =~= seq![a, b, c, d]);
}

/// Appends every byte of `src`.
pub fn extend_bytes(out: &mut Vec<u8>, src: &[u8])
    ensures
        final(out)@ == old(out)@ + src@,
{
    let mut i: usize = 0;
    while i < src.len()
        invariant
            i <= src@.len(),
            out@ == old(out)@ + src@.subrange(0, i as int),
        decreases src@.len() - i,
    {
        out.push(src[i]);
        i += 1;
        assert(out@ =~= old(out)@ + src@.subrange(0, i as int));
    }
    assert(src@.subrange(0, src@.len() as int) =~= src@);
}

/// A copy of `src[start..end]`.
pub fn copy_range(src: &[u8], start: usize, end: usize) -> (r: Vec<u8>)
    requires
        start <= end <= src@.len(),
    ensures
        r@ == src@.subrange(start as int, end as int),
{
    let mut out: Vec<u8> = Vec::new();
    let mut i: usize = start;
    while i < end
        invariant
            start <= i <= end,
            end <= src@.len(),
            out@ == src@.subrange(start as int, i as int),
        decreases end - i,
    {
        out.push(src[i]);
        i += 1;
        assert(out@ =~= src@.subrange(start as int, i as int));
    }
    out
}

} // verus!
