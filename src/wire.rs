//! Little-endian integer fields inside byte buffers.
use vstd::bytes::{
    spec_u32_from_le_bytes, spec_u32_to_le_bytes, spec_u64_from_le_bytes, spec_u64_to_le_bytes,
    u32_from_le_bytes, u32_to_le_bytes, u64_from_le_bytes, u64_to_le_bytes,
};
use vstd::prelude::*;
use vstd::slice::slice_subrange;

verus! {

/// The little-endian bytes of a 32-bit value.
pub open spec fn le32(x: u32) -> Seq<u8> {
    spec_u32_to_le_bytes(x)
}

/// The little-endian bytes of a 64-bit value.
pub open spec fn le64(x: u64) -> Seq<u8> {
    spec_u64_to_le_bytes(x)
}

/// The 32-bit value stored little-endian at offset `i` of `s`.
pub open spec fn u32_at(s: Seq<u8>, i: int) -> u32 {
    spec_u32_from_le_bytes(s.subrange(i, i + 4))
}

/// The 64-bit value stored little-endian at offset `i` of `s`.
pub open spec fn u64_at(s: Seq<u8>, i: int) -> u64 {
    spec_u64_from_le_bytes(s.subrange(i, i + 8))
}

/// `n` zero bytes.
pub open spec fn zeros(n: nat) -> Seq<u8> {
    Seq::new(n, |i: int| 0u8)
}

/// Encoding then decoding a 32-bit value gives it back.
pub proof fn lemma_le32_round_trip(x: u32, rest: Seq<u8>)
    ensures
        le32(x).len() == 4,
        u32_at(le32(x) + rest, 0) == x,
{
    vstd::bytes::lemma_auto_spec_u32_to_from_le_bytes();
    assert((le32(x) + rest).subrange(0, 4) =~= le32(x));
}

/// Reading at offset `i` of the suffix from `p` reads at offset `p + i`.
pub proof fn lemma_at_skip(s: Seq<u8>, p: int)
    requires
        0 <= p <= s.len(),
    ensures
        forall|i: int|
            0 <= i && p + i + 4 <= s.len() ==> #[trigger] u32_at(s.skip(p), i) == u32_at(s, p + i),
        forall|i: int|
            0 <= i && p + i + 8 <= s.len() ==> #[trigger] u64_at(s.skip(p), i) == u64_at(s, p + i),
{
    assert forall|i: int| 0 <= i && p + i + 4 <= s.len() implies #[trigger] u32_at(s.skip(p), i)
        == u32_at(s, p + i) by {
        assert(s.skip(p).subrange(i, i + 4) =~= s.subrange(p + i, p + i + 4));
    }
    assert forall|i: int| 0 <= i && p + i + 8 <= s.len() implies #[trigger] u64_at(s.skip(p), i)
        == u64_at(s, p + i) by {
        assert(s.skip(p).subrange(i, i + 8) =~= s.subrange(p + i, p + i + 8));
    }
}

/// Appends the bytes of `b` to `v`.
pub fn push_all(v: &mut Vec<u8>, b: &Vec<u8>)
    ensures
        final(v)@ == old(v)@ + b@,
{
    let mut i: usize = 0;
    while i < b.len()
        invariant
            i <= b@.len(),
            v@ == old(v)@ + b@.subrange(0, i as int),
        decreases b@.len() - i,
    {
        v.push(b[i]);
        i = i + 1;
        assert(b@.subrange(0, i as int) =~= b@.subrange(0, i - 1) + seq![b@[i - 1]]);
    }
    assert(b@.subrange(0, b@.len() as int) =~= b@);
}

/// Appends `n` zero bytes to `v`.
pub fn push_zeros(v: &mut Vec<u8>, n: usize)
    ensures
        final(v)@ == old(v)@ + zeros(n as nat),
{
    let mut i: usize = 0;
    while i < n
        invariant
            i <= n,
            v@ == old(v)@ + zeros(i as nat),
        decreases n - i,
    {
        v.push(0u8);
        i = i + 1;
        assert(zeros(i as nat) =~= zeros((i - 1) as nat).push(0u8));
    }
}

/// Appends the little-endian bytes of `x` to `v`.
pub fn push_u32(v: &mut Vec<u8>, x: u32)
    ensures
        final(v)@ == old(v)@ + le32(x),
{
    let b = u32_to_le_bytes(x);
    push_all(v, &b);
}

/// Appends the little-endian bytes of `x` to `v`.
pub fn push_u64(v: &mut Vec<u8>, x: u64)
    ensures
        final(v)@ == old(v)@ + le64(x),
{
    let b = u64_to_le_bytes(x);
    push_all(v, &b);
}

/// Reads the 32-bit value stored little-endian at offset `i` of `s`.
pub fn read_u32(s: &[u8], i: usize) -> (r: u32)
    requires
        i + 4 <= s@.len(),
    ensures
        r == u32_at(s@, i as int),
{
    let _n = s.len();
    let part = slice_subrange(s, i, i + 4);
    u32_from_le_bytes(part)
}

/// Reads the 64-bit value stored little-endian at offset `i` of `s`.
pub fn read_u64(s: &[u8], i: usize) -> (r: u64)
    requires
        i + 8 <= s@.len(),
    ensures
        r == u64_at(s@, i as int),
{
    let _n = s.len();
    let part = slice_subrange(s, i, i + 8);
    u64_from_le_bytes(part)
}

} // verus!
