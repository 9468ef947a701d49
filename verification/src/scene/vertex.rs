//! The vertex record shared by every mesh primitive.

use vstd::prelude::*;
use crate::bytes::{spec_u32_le, push_u32_le, spec_u32_from_le_bytes, lemma_u32_le_bytes_roundtrip};

verus! {

/// The byte size of one packed vertex: eleven 32-bit words.
pub const VERTEX_BYTE_SIZE: usize = 44;

/// One vertex: position, normal, tangent and texture coordinates, each
/// component an IEEE-754 single-precision encoding.
#[derive(Debug, Clone, Copy)]
pub struct HalaVertex {
    pub position: [u32; 3],
    pub normal: [u32; 3],
    pub tangent: [u32; 3],
    pub tex_coord: [u32; 2],
}

/// The packed 44-byte layout of one vertex: position, normal, tangent and
/// texture coordinates in order, each component four little-endian bytes.
pub open spec fn spec_vertex_bytes(v: HalaVertex) -> Seq<u8> {
    spec_u32_le(v.position[0]) + spec_u32_le(v.position[1]) + spec_u32_le(v.position[2])
        + spec_u32_le(v.normal[0]) + spec_u32_le(v.normal[1]) + spec_u32_le(v.normal[2])
        + spec_u32_le(v.tangent[0]) + spec_u32_le(v.tangent[1]) + spec_u32_le(v.tangent[2])
        + spec_u32_le(v.tex_coord[0]) + spec_u32_le(v.tex_coord[1])
}

/// Append the packed 44-byte layout of `v`.
pub fn append_vertex_bytes(out: &mut Vec<u8>, v: &HalaVertex)
    ensures
        final(out)@ == old(out)@ + spec_vertex_bytes(*v),
        final(out)@.len() == old(out)@.len() + VERTEX_BYTE_SIZE,
{
    push_u32_le(out, v.position[0]);
    push_u32_le(out, v.position[1]);
    push_u32_le(out, v.position[2]);
    push_u32_le(out, v.normal[0]);
    push_u32_le(out, v.normal[1]);
    push_u32_le(out, v.normal[2]);
    push_u32_le(out, v.tangent[0]);
    push_u32_le(out, v.tangent[1]);
    push_u32_le(out, v.tangent[2]);
    push_u32_le(out, v.tex_coord[0]);
    push_u32_le(out, v.tex_coord[1]);
    proof {
        assert(out@ =~= old(out)@ + spec_vertex_bytes(*v));
    }
}

/// The concatenated packed layouts of a vertex array, in order.
pub open spec fn spec_vertex_seq_bytes(s: Seq<HalaVertex>) -> Seq<u8>
    decreases s.len(),
{
    if s.len() == 0 {
        Seq::empty()
    } else {
        spec_vertex_seq_bytes(s.drop_last()) + spec_vertex_bytes(s.last())
    }
}

/// Each record packs to 44 bytes.
pub proof fn lemma_vertex_seq_bytes_len(s: Seq<HalaVertex>)
    ensures
        spec_vertex_seq_bytes(s).len() == VERTEX_BYTE_SIZE * s.len(),
    decreases s.len(),
{
    if s.len() > 0 {
        lemma_vertex_seq_bytes_len(s.drop_last());
    }
}

/// Pack an array of records into one contiguous payload.
pub fn vertex_seq_bytes(v: &Vec<HalaVertex>) -> (r: Vec<u8>)
    ensures
        r@ == spec_vertex_seq_bytes(v@),
        r@.len() == VERTEX_BYTE_SIZE * v@.len(),
{
    let n = v.len();
    let mut out: Vec<u8> = Vec::new();
    let mut i: usize = 0;
    proof {
        assert(v@.take(0int) =~= Seq::<HalaVertex>::empty());
    }
    while i < n
        invariant
            i <= n,
            n == v@.len(),
            out@ == spec_vertex_seq_bytes(v@.take(i as int)),
        decreases n - i,
    {
        append_vertex_bytes(&mut out, &v[i]);
        i = i + 1;
        proof {
            assert(v@.take(i as int).drop_last() =~= v@.take(i - 1));
            assert(v@.take(i as int).last() == v@[i - 1]);
        }
    }
    proof {
        assert(v@.take(n as int) =~= v@);
        lemma_vertex_seq_bytes_len(v@);
    }
    out
}


/// The three position words can be read back from a packed vertex: they are
/// the first twelve bytes.
pub proof fn lemma_vertex_bytes_position_words(v: HalaVertex)
    ensures
        spec_u32_from_le_bytes(spec_vertex_bytes(v), 0) == v.position[0],
        spec_u32_from_le_bytes(spec_vertex_bytes(v), 4) == v.position[1],
        spec_u32_from_le_bytes(spec_vertex_bytes(v), 8) == v.position[2],
{
    let s = spec_vertex_bytes(v);
    assert forall|i: int| 0 <= i < 4 implies s[i] == spec_u32_le(v.position[0])[i] && s[4 + i]
        == spec_u32_le(v.position[1])[i] && s[8 + i] == spec_u32_le(v.position[2])[i] by {}
    lemma_u32_le_bytes_roundtrip(v.position[0]);
    lemma_u32_le_bytes_roundtrip(v.position[1]);
    lemma_u32_le_bytes_roundtrip(v.position[2]);
    assert(spec_u32_from_le_bytes(s, 0) == spec_u32_from_le_bytes(spec_u32_le(v.position[0]), 0));
    assert(spec_u32_from_le_bytes(s, 4) == spec_u32_from_le_bytes(spec_u32_le(v.position[1]), 0));
    assert(spec_u32_from_le_bytes(s, 8) == spec_u32_from_le_bytes(spec_u32_le(v.position[2]), 0));
}

/// The three position words of every record can be read back from the
/// packed vertex array at the record's 44-byte offset.
pub proof fn lemma_vertex_seq_position_word(vs: Seq<HalaVertex>, k: int, c: int)
    requires
        0 <= k < vs.len(),
        0 <= c < 3,
    ensures
        spec_u32_from_le_bytes(spec_vertex_seq_bytes(vs), 44 * k + 4 * c) == vs[k].position[c],
    decreases vs.len(),
{
    let pre = spec_vertex_seq_bytes(vs.drop_last());
    let last = spec_vertex_bytes(vs.last());
    lemma_vertex_seq_bytes_len(vs.drop_last());
    assert(spec_vertex_seq_bytes(vs) == pre + last);
    if k == vs.len() - 1 {
        lemma_vertex_bytes_position_words(vs.last());
        assert forall|i: int| 0 <= i < 4 implies #[trigger] spec_vertex_seq_bytes(vs)[44 * k + 4
            * c + i] == last[4 * c + i] by {
            assert((pre + last)[44 * k + 4 * c + i] == last[44 * k + 4 * c + i - pre.len()]);
        }
        assert(spec_u32_from_le_bytes(spec_vertex_seq_bytes(vs), 44 * k + 4 * c)
            == spec_u32_from_le_bytes(last, 4 * c));
    } else {
        lemma_vertex_seq_position_word(vs.drop_last(), k, c);
        assert forall|i: int| 0 <= i < 4 implies #[trigger] spec_vertex_seq_bytes(vs)[44 * k + 4
            * c + i] == pre[44 * k + 4 * c + i] by {
            assert(44 * k + 4 * c + i < pre.len());
        }
        assert(spec_u32_from_le_bytes(spec_vertex_seq_bytes(vs), 44 * k + 4 * c)
            == spec_u32_from_le_bytes(pre, 44 * k + 4 * c));
        assert(vs.drop_last()[k] == vs[k]);
    }
}

} // verus!
