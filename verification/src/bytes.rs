//! Little-endian packing of records into staged-upload payloads.
//!
//! Every GPU-visible record of this crate is laid out as its C layout
//! would be in memory on a little-endian machine: 32-bit words in order,
//! with explicit padding where the C alignment rules insert it.

use vstd::prelude::*;

verus! {

/// The four little-endian bytes of a 32-bit word.
pub open spec fn spec_u32_le(w: u32) -> Seq<u8> {
    seq![
        (w & 0xff) as u8,
        ((w >> 8) & 0xff) as u8,
        ((w >> 16) & 0xff) as u8,
        ((w >> 24) & 0xff) as u8,
    ]
}

/// The eight little-endian bytes of a 64-bit word.
pub open spec fn spec_u64_le(w: u64) -> Seq<u8> {
    seq![
        (w & 0xff) as u8,
        ((w >> 8) & 0xff) as u8,
        ((w >> 16) & 0xff) as u8,
        ((w >> 24) & 0xff) as u8,
        ((w >> 32) & 0xff) as u8,
        ((w >> 40) & 0xff) as u8,
        ((w >> 48) & 0xff) as u8,
        ((w >> 56) & 0xff) as u8,
    ]
}

/// `n` zero bytes of padding.
pub open spec fn spec_zero_bytes(n: nat) -> Seq<u8> {
    Seq::new(n, |i: int| 0u8)
}

/// Append the four little-endian bytes of `w`.
pub fn push_u32_le(out: &mut Vec<u8>, w: u32)
    ensures
        final(out)@ == old(out)@ + spec_u32_le(w),
{
    proof {
        assert(w & 0xff < 256 && (w >> 8) & 0xff < 256 && (w >> 16) & 0xff < 256 && (w >> 24)
            & 0xff < 256) by (bit_vector);
    }
    out.push((w & 0xff) as u8);
    out.push(((w >> 8) & 0xff) as u8);
    out.push(((w >> 16) & 0xff) as u8);
    out.push(((w >> 24) & 0xff) as u8);
    proof {
        assert(out@ =~= old(out)@ + spec_u32_le(w));
    }
}

/// Append the eight little-endian bytes of `w`.
pub fn push_u64_le(out: &mut Vec<u8>, w: u64)
    ensures
        final(out)@ == old(out)@ + spec_u64_le(w),
{
    proof {
        assert(w & 0xff < 256 && (w >> 8) & 0xff < 256 && (w >> 16) & 0xff < 256 && (w >> 24)
            & 0xff < 256 && (w >> 32) & 0xff < 256 && (w >> 40) & 0xff < 256 && (w >> 48) & 0xff
            < 256 && (w >> 56) & 0xff < 256) by (bit_vector);
    }
    out.push((w & 0xff) as u8);
    out.push(((w >> 8) & 0xff) as u8);
    out.push(((w >> 16) & 0xff) as u8);
    out.push(((w >> 24) & 0xff) as u8);
    out.push(((w >> 32) & 0xff) as u8);
    out.push(((w >> 40) & 0xff) as u8);
    out.push(((w >> 48) & 0xff) as u8);
    out.push(((w >> 56) & 0xff) as u8);
    proof {
        assert(out@ =~= old(out)@ + spec_u64_le(w));
    }
}

/// The 32-bit word stored little-endian at byte offset `off`.
pub open spec fn spec_u32_from_le_bytes(s: Seq<u8>, off: int) -> u32 {
    (s[off] + s[off + 1] * 0x100 + s[off + 2] * 0x10000 + s[off + 3] * 0x1000000) as u32
}

/// The 32-bit word at lane `c` of element `k` in an array of `stride`-byte
/// records whose head holds 32-bit lanes.
pub open spec fn spec_record_word(bytes: Seq<u8>, stride: int, k: int, c: int) -> u32 {
    spec_u32_from_le_bytes(bytes, k * stride + 4 * c)
}

/// Reading a word back from its four little-endian bytes is the identity.
pub proof fn lemma_u32_le_bytes_roundtrip(w: u32)
    ensures
        spec_u32_from_le_bytes(spec_u32_le(w), 0) == w,
{
    assert(w & 0xff < 256 && (w >> 8) & 0xff < 256 && (w >> 16) & 0xff < 256 && (w >> 24) & 0xff
        < 256) by (bit_vector);
    assert(spec_u32_le(w)[0] == (w & 0xff) as u8);
    assert(spec_u32_le(w)[1] == ((w >> 8) & 0xff) as u8);
    assert(spec_u32_le(w)[2] == ((w >> 16) & 0xff) as u8);
    assert(spec_u32_le(w)[3] == ((w >> 24) & 0xff) as u8);
    assert((w & 0xff) + ((w >> 8) & 0xff) * 0x100 + ((w >> 16) & 0xff) * 0x10000 + ((w >> 24)
        & 0xff) * 0x1000000 == w) by (bit_vector);
}

/// The little-endian bytes of a sequence of 32-bit words, in order.
pub open spec fn spec_u32_seq_bytes(s: Seq<u32>) -> Seq<u8>
    decreases s.len(),
{
    if s.len() == 0 {
        Seq::empty()
    } else {
        spec_u32_seq_bytes(s.drop_last()) + spec_u32_le(s.last())
    }
}

/// A word sequence packs to four bytes per word.
pub proof fn lemma_u32_seq_bytes_len(s: Seq<u32>)
    ensures
        spec_u32_seq_bytes(s).len() == 4 * s.len(),
    decreases s.len(),
{
    if s.len() > 0 {
        lemma_u32_seq_bytes_len(s.drop_last());
    }
}

/// Append the little-endian bytes of every word of `v`, in order.
pub fn append_u32_seq_bytes(out: &mut Vec<u8>, v: &Vec<u32>)
    ensures
        final(out)@ == old(out)@ + spec_u32_seq_bytes(v@),
        final(out)@.len() == old(out)@.len() + 4 * v@.len(),
{
    let n = v.len();
    let mut i: usize = 0;
    proof {
        assert(v@.take(0int) =~= Seq::<u32>::empty());
    }
    while i < n
        invariant
            i <= n,
            n == v@.len(),
            out@ == old(out)@ + spec_u32_seq_bytes(v@.take(i as int)),
        decreases n - i,
    {
        push_u32_le(out, v[i]);
        i = i + 1;
        proof {
            assert(v@.take(i as int).drop_last() =~= v@.take(i - 1));
            assert(v@.take(i as int).last() == v@[i - 1]);
            assert(out@ =~= old(out)@ + spec_u32_seq_bytes(v@.take(i as int)));
        }
    }
    proof {
        assert(v@.take(n as int) =~= v@);
        lemma_u32_seq_bytes_len(v@);
    }
}

/// Append `n` zero bytes of padding.
pub fn push_zero_bytes(out: &mut Vec<u8>, n: usize)
    ensures
        final(out)@ == old(out)@ + spec_zero_bytes(n as nat),
{
    let mut i: usize = 0;
    while i < n
        invariant
            i <= n,
            out@ == old(out)@ + spec_zero_bytes(i as nat),
        decreases n - i,
    {
        out.push(0u8);
        i = i + 1;
        proof {
            assert(out@ =~= old(out)@ + spec_zero_bytes(i as nat));
        }
    }
}

} // verus!
