//! The meshlet record consumed by task/mesh-shader pipelines.

use vstd::prelude::*;
use crate::bytes::{spec_u32_le, push_u32_le};
use crate::error::HalaRendererError;
use crate::math::F32_HALF;
use crate::scene::cpu::mesh::HalaPrimitive;
use crate::scene::vertex::{HalaVertex, vertex_seq_bytes, lemma_vertex_seq_position_word};
use crate::bytes::spec_record_word;
use crate::float_bits::F32_MAGNITUDE_MASK;

verus! {

/// The byte size of one packed meshlet record: sixteen 32-bit words.
pub const MESHLET_BYTE_SIZE: usize = 64;

/// One meshlet: a bounding sphere, a backface-culling cone, and the offsets
/// and counts of its slices of the primitive's shared meshlet-vertex and
/// meshlet-primitive arrays. Geometry components are IEEE-754 encodings.
#[derive(Debug, Clone, Copy)]
pub struct HalaMeshlet {
    pub center: [u32; 3],
    pub radius: u32,
    pub cone_apex: [u32; 3],
    pub cone_cutoff: u32,
    pub cone_axis: [u32; 3],
    pub num_of_vertices: u32,
    pub num_of_primitives: u32,
    pub offset_of_vertices: u32,
    pub offset_of_primitives: u32,
    pub draw_index: u32,
}

/// The packed 64-byte layout of one meshlet record, fields in declaration
/// order, each a four-byte little-endian word.
pub open spec fn spec_meshlet_bytes(m: HalaMeshlet) -> Seq<u8> {
    spec_u32_le(m.center[0]) + spec_u32_le(m.center[1]) + spec_u32_le(m.center[2]) + spec_u32_le(
        m.radius,
    ) + spec_u32_le(m.cone_apex[0]) + spec_u32_le(m.cone_apex[1]) + spec_u32_le(m.cone_apex[2])
        + spec_u32_le(m.cone_cutoff) + spec_u32_le(m.cone_axis[0]) + spec_u32_le(m.cone_axis[1])
        + spec_u32_le(m.cone_axis[2]) + spec_u32_le(m.num_of_vertices) + spec_u32_le(
        m.num_of_primitives,
    ) + spec_u32_le(m.offset_of_vertices) + spec_u32_le(m.offset_of_primitives) + spec_u32_le(
        m.draw_index,
    )
}

/// Append the packed 64-byte layout of `m`.
pub fn append_meshlet_bytes(out: &mut Vec<u8>, m: &HalaMeshlet)
    ensures
        final(out)@ == old(out)@ + spec_meshlet_bytes(*m),
        final(out)@.len() == old(out)@.len() + MESHLET_BYTE_SIZE,
{
    push_u32_le(out, m.center[0]);
    push_u32_le(out, m.center[1]);
    push_u32_le(out, m.center[2]);
    push_u32_le(out, m.radius);
    push_u32_le(out, m.cone_apex[0]);
    push_u32_le(out, m.cone_apex[1]);
    push_u32_le(out, m.cone_apex[2]);
    push_u32_le(out, m.cone_cutoff);
    push_u32_le(out, m.cone_axis[0]);
    push_u32_le(out, m.cone_axis[1]);
    push_u32_le(out, m.cone_axis[2]);
    push_u32_le(out, m.num_of_vertices);
    push_u32_le(out, m.num_of_primitives);
    push_u32_le(out, m.offset_of_vertices);
    push_u32_le(out, m.offset_of_primitives);
    push_u32_le(out, m.draw_index);
    proof {
        assert(out@ =~= old(out)@ + spec_meshlet_bytes(*m));
    }
}

/// The concatenated packed layouts of a meshlet-record array, in order.
pub open spec fn spec_meshlet_seq_bytes(s: Seq<HalaMeshlet>) -> Seq<u8>
    decreases s.len(),
{
    if s.len() == 0 {
        Seq::empty()
    } else {
        spec_meshlet_seq_bytes(s.drop_last()) + spec_meshlet_bytes(s.last())
    }
}

/// Each record packs to 64 bytes.
pub proof fn lemma_meshlet_seq_bytes_len(s: Seq<HalaMeshlet>)
    ensures
        spec_meshlet_seq_bytes(s).len() == MESHLET_BYTE_SIZE * s.len(),
    decreases s.len(),
{
    if s.len() > 0 {
        lemma_meshlet_seq_bytes_len(s.drop_last());
    }
}

/// Pack an array of records into one contiguous payload.
pub fn meshlet_seq_bytes(v: &Vec<HalaMeshlet>) -> (r: Vec<u8>)
    ensures
        r@ == spec_meshlet_seq_bytes(v@),
        r@.len() == MESHLET_BYTE_SIZE * v@.len(),
{
    let n = v.len();
    let mut out: Vec<u8> = Vec::new();
    let mut i: usize = 0;
    proof {
        assert(v@.take(0int) =~= Seq::<HalaMeshlet>::empty());
    }
    while i < n
        invariant
            i <= n,
            n == v@.len(),
            out@ == spec_meshlet_seq_bytes(v@.take(i as int)),
        decreases n - i,
    {
        append_meshlet_bytes(&mut out, &v[i]);
        i = i + 1;
        proof {
            assert(v@.take(i as int).drop_last() =~= v@.take(i - 1));
            assert(v@.take(i as int).last() == v@[i - 1]);
        }
    }
    proof {
        assert(v@.take(n as int) =~= v@);
        lemma_meshlet_seq_bytes_len(v@);
    }
    out
}


/// The largest position magnitude the clusterer accepts: the encoding of
/// `2^30`. Bounded finite coordinates keep every squared distance and area
/// inside meshoptimizer finite, which its nearest-neighbor search and its
/// bound computation depend on.
pub const MESHLET_MAX_POSITION_BITS: u32 = 0x4E80_0000;

/// The encoding is finite with magnitude at most `2^30`: its magnitude bits
/// do not exceed those of `2^30` (NaNs and infinities have larger ones).
pub open spec fn spec_position_word_in_range(w: u32) -> bool {
    w & F32_MAGNITUDE_MASK <= MESHLET_MAX_POSITION_BITS
}

/// Every position component of every vertex is finite with magnitude at
/// most `2^30`.
pub open spec fn spec_positions_in_range(vs: Seq<HalaVertex>) -> bool {
    forall|k: int, c: int|
        0 <= k < vs.len() && 0 <= c < 3 ==> spec_position_word_in_range(
            #[trigger] vs[k].position[c],
        )
}

/// The byte-level form the clustering wrappers ask for: the three position
/// words at the head of every `stride`-byte vertex record are finite with
/// magnitude at most `2^30`.
pub open spec fn spec_position_bytes_in_range(bytes: Seq<u8>, stride: int) -> bool {
    forall|k: int, c: int|
        0 <= k < bytes.len() as int / stride && 0 <= c < 3 ==> spec_position_word_in_range(
            #[trigger] spec_record_word(bytes, stride, k, c),
        )
}

/// The clustering limits the builder asks of meshoptimizer: at most this
/// many vertices per meshlet.
pub const MESHLET_MAX_VERTICES: usize = 64;

/// At most this many triangles per meshlet.
pub const MESHLET_MAX_TRIANGLES: usize = 124;

/// One cluster descriptor as meshoptimizer reports it: a slice of the
/// shared vertex-remap array and a slice of the shared micro-index array.
#[derive(Debug, Clone, Copy, PartialEq, Eq, Structural)]
pub struct MeshletCluster {
    pub vertex_offset: u32,
    pub triangle_offset: u32,
    pub vertex_count: u32,
    pub triangle_count: u32,
}

/// A whole clustering: the cluster descriptors, the vertex remap array
/// (meshlet-local to mesh-global indices), and the micro index bytes (three
/// meshlet-local vertex indices per triangle).
pub struct MeshletClustering {
    pub clusters: Vec<MeshletCluster>,
    pub vertices: Vec<u32>,
    pub triangles: Vec<u8>,
}

/// The triangles of a triangle-list index array, as ordered index triples.
pub open spec fn spec_index_triangles(idx: Seq<u32>) -> Seq<(u32, u32, u32)> {
    Seq::new((idx.len() / 3) as nat, |t: int| (idx[3 * t], idx[3 * t + 1], idx[3 * t + 2]))
}

/// The global triangles of one cluster: each micro index resolved through
/// the cluster's slice of the vertex remap.
pub open spec fn spec_cluster_triangles(
    c: MeshletCluster,
    verts: Seq<u32>,
    tris: Seq<u8>,
) -> Seq<(u32, u32, u32)> {
    Seq::new(
        c.triangle_count as nat,
        |t: int|
            (
                verts[c.vertex_offset + tris[c.triangle_offset + 3 * t] as int],
                verts[c.vertex_offset + tris[c.triangle_offset + 3 * t + 1] as int],
                verts[c.vertex_offset + tris[c.triangle_offset + 3 * t + 2] as int],
            ),
    )
}

/// The global triangles of the first `k` clusters, concatenated.
pub open spec fn spec_clustering_triangles_prefix(
    clusters: Seq<MeshletCluster>,
    verts: Seq<u32>,
    tris: Seq<u8>,
    k: int,
) -> Seq<(u32, u32, u32)>
    decreases k,
{
    if k <= 0 {
        Seq::empty()
    } else {
        spec_clustering_triangles_prefix(clusters, verts, tris, k - 1) + spec_cluster_triangles(
            clusters[k - 1],
            verts,
            tris,
        )
    }
}

/// One cluster is well-formed with respect to its clustering and the source
/// mesh: its counts respect the requested limits (with at least one
/// triangle), its slices lie inside the shared arrays with the 4-byte
/// triangle alignment meshoptimizer maintains, its micro indices stay below
/// its vertex count, and its remap entries name existing mesh vertices.
pub open spec fn spec_cluster_wf(
    c: MeshletCluster,
    verts: Seq<u32>,
    tris: Seq<u8>,
    mesh_vertex_count: int,
    max_vertices: int,
    max_triangles: int,
) -> bool {
    &&& 0 < c.vertex_count <= max_vertices
    &&& 0 < c.triangle_count <= max_triangles
    &&& c.vertex_offset + c.vertex_count <= verts.len()
    &&& c.triangle_offset % 4 == 0
    &&& c.triangle_offset + 3 * c.triangle_count <= tris.len()
    &&& forall|t: int|
        0 <= t < 3 * c.triangle_count ==> (#[trigger] tris[c.triangle_offset + t]) < c.vertex_count
    &&& forall|j: int|
        0 <= j < c.vertex_count ==> (#[trigger] verts[c.vertex_offset + j]) < mesh_vertex_count
}

/// The whole clustering is well-formed and covers the input triangle list
/// exactly once (as a multiset of ordered triples).
pub open spec fn spec_clustering_wf(
    m: &MeshletClustering,
    indices: Seq<u32>,
    mesh_vertex_count: int,
    max_vertices: int,
    max_triangles: int,
) -> bool {
    &&& forall|k: int|
        0 <= k < m.clusters@.len() ==> spec_cluster_wf(
            #[trigger] m.clusters@[k],
            m.vertices@,
            m.triangles@,
            mesh_vertex_count,
            max_vertices,
            max_triangles,
        )
    &&& spec_clustering_triangles_prefix(
        m.clusters@,
        m.vertices@,
        m.triangles@,
        m.clusters@.len() as int,
    ).to_multiset() == spec_index_triangles(indices).to_multiset()
    &&& m.vertices@.len() <= m.clusters@.len() * max_vertices
}

/// Relies on `meshopt::VertexDataAdapter::new` (validates the byte length
/// against the stride) and `meshopt::clusterize::build_meshlets`
/// (`meshopt_buildMeshlets` followed by `meshopt_optimizeMeshlet`):
/// meshoptimizer splits the triangle list into meshlets, appending every
/// input triangle to exactly one meshlet as an ordered triple, honoring the
/// vertex and triangle maxima, keeping each meshlet's triangle bytes
/// 4-byte-aligned, and the optimizer pass only permutes triangles and
/// renames meshlet-local vertices within one meshlet. The positions must be
/// finite and bounded: the builder's nearest-neighbor search accepts a
/// candidate only when its squared distance compares below the current
/// best, so a NaN coordinate, or one large enough to overflow the squared
/// distance to infinity, would leave triangles unemitted; bounded finite
/// coordinates keep those comparisons meaningful and the library's internal
/// assertions (live in debug builds) satisfied. The stride must be a
/// multiple of four and at most 256, meshoptimizer's own entry conditions;
/// it also divides by four internally, so a misaligned stride would make it
/// read positions at the wrong offsets.
#[verifier::external_body]
fn build_meshlets_clusters(
    indices: &Vec<u32>,
    vertex_bytes: &Vec<u8>,
    vertex_stride: usize,
    max_vertices: usize,
    max_triangles: usize,
    cone_weight_bits: u32,
) -> (r: Result<MeshletClustering, HalaRendererError>)
    requires
        indices@.len() % 3 == 0,
        vertex_stride >= 12,
        vertex_stride % 4 == 0,
        vertex_stride <= 256,
        vertex_bytes@.len() as int % vertex_stride as int == 0,
        forall|i: int|
            0 <= i < indices@.len() ==> (#[trigger] indices@[i]) < vertex_bytes@.len() as int
                / vertex_stride as int,
        spec_position_bytes_in_range(vertex_bytes@, vertex_stride as int),
        max_vertices == MESHLET_MAX_VERTICES,
        max_triangles == MESHLET_MAX_TRIANGLES,
        cone_weight_bits == F32_HALF,
    ensures
        r matches Ok(m) ==> spec_clustering_wf(
            &m,
            indices@,
            vertex_bytes@.len() as int / vertex_stride as int,
            max_vertices as int,
            max_triangles as int,
        ),
        r is Ok,
{
    let adapter = match meshopt::VertexDataAdapter::new(vertex_bytes.as_slice(), vertex_stride, 0) {
        Ok(adapter) => adapter,
        Err(e) => return Err(HalaRendererError::new("Failed to create vertex data adapter.", Some(format!("{}", e)))),
    };
    let w: glam::Vec2 = bytemuck::cast([cone_weight_bits, 0u32]);
    let m = meshopt::clusterize::build_meshlets(indices.as_slice(), &adapter, max_vertices, max_triangles, w.x);
    let clusters = m.meshlets.iter().map(|c| MeshletCluster { vertex_offset: c.vertex_offset, triangle_offset: c.triangle_offset, vertex_count: c.vertex_count, triangle_count: c.triangle_count }).collect();
    Ok(MeshletClustering { clusters, vertices: m.vertices, triangles: m.triangles })
}

/// The eleven bound components (`meshopt_Bounds` without the quantized
/// cone) of one meshlet: bounding-sphere center and radius, cone apex, cone
/// axis, cone cutoff — a pure function of the meshlet's vertex remap, its
/// micro indices, and the mesh's vertex bytes.
pub uninterp spec fn spec_meshlet_bounds_of(
    meshlet_vertices: Seq<u32>,
    meshlet_triangles: Seq<u8>,
    vertex_bytes: Seq<u8>,
    vertex_stride: int,
) -> Seq<u32>;

/// Relies on `meshopt::clusterize::compute_meshlet_bounds`
/// (`meshopt_computeMeshletBounds`), a deterministic computation over the
/// meshlet's triangles and the referenced positions, and on
/// `meshopt::VertexDataAdapter::new`. The positions must be finite and
/// bounded: a NaN coordinate makes the cone computation trip an internal
/// assertion that is live in debug builds, and bounded finite coordinates
/// keep every intermediate area and distance finite. The stride must be a
/// multiple of four and at most 256, meshoptimizer's own entry conditions.
#[verifier::external_body]
fn compute_meshlet_bounds_bits(
    meshlet_vertices: &Vec<u32>,
    meshlet_triangles: &Vec<u8>,
    vertex_bytes: &Vec<u8>,
    vertex_stride: usize,
) -> (r: Vec<u32>)
    requires
        meshlet_triangles@.len() % 3 == 0,
        meshlet_triangles@.len() <= 3 * 512,
        vertex_stride >= 12,
        vertex_stride % 4 == 0,
        vertex_stride <= 256,
        vertex_bytes@.len() as int % vertex_stride as int == 0,
        spec_position_bytes_in_range(vertex_bytes@, vertex_stride as int),
        forall|t: int|
            0 <= t < meshlet_triangles@.len() ==> (#[trigger] meshlet_triangles@[t])
                < meshlet_vertices@.len(),
        forall|j: int|
            0 <= j < meshlet_vertices@.len() ==> (#[trigger] meshlet_vertices@[j])
                < vertex_bytes@.len() as int / vertex_stride as int,
    ensures
        r@ == spec_meshlet_bounds_of(
            meshlet_vertices@,
            meshlet_triangles@,
            vertex_bytes@,
            vertex_stride as int,
        ),
        r@.len() == 11,
{
    let adapter = meshopt::VertexDataAdapter::new(vertex_bytes.as_slice(), vertex_stride, 0)
        .expect("vertex data layout was validated by the caller");
    let m = meshopt::clusterize::Meshlet { vertices: meshlet_vertices.as_slice(), triangles: meshlet_triangles.as_slice() };
    let b = meshopt::clusterize::compute_meshlet_bounds(m, &adapter);
    let mut r = vec![b.center[0], b.center[1], b.center[2], b.radius];
    r.extend_from_slice(&b.cone_apex);
    r.extend_from_slice(&b.cone_axis);
    r.push(b.cone_cutoff);
    r.iter().map(|f| f.to_bits()).collect()
}



/// With at least one triangle per cluster, the concatenated triangles of
/// the first `k` clusters number at least `k`.
pub proof fn lemma_clustering_prefix_len(
    clusters: Seq<MeshletCluster>,
    verts: Seq<u32>,
    tris: Seq<u8>,
    k: int,
)
    requires
        forall|j: int| 0 <= j < k ==> (#[trigger] clusters[j]).triangle_count >= 1,
    ensures
        spec_clustering_triangles_prefix(clusters, verts, tris, k).len() >= k,
    decreases k,
{
    if k > 0 {
        lemma_clustering_prefix_len(clusters, verts, tris, k - 1);
    }
}

/// Three meshlet-local vertex indices packed into one 32-bit word.
pub open spec fn spec_pack_local(a: u8, b: u8, c: u8) -> u32 {
    (a as u32) | ((b as u32) << 8) | ((c as u32) << 16)
}

/// Packing three bytes into a word and reading them back is the identity.
pub proof fn lemma_pack_unpack(a: u32, b: u32, c: u32)
    requires
        a < 256,
        b < 256,
        c < 256,
    ensures
        (a | (b << 8) | (c << 16)) & 0xff == a,
        ((a | (b << 8) | (c << 16)) >> 8) & 0xff == b,
        ((a | (b << 8) | (c << 16)) >> 16) & 0xff == c,
        (a | (b << 8) | (c << 16)) >> 24 == 0,
{
    assert(a < 256 && b < 256 && c < 256 ==> ((a | (b << 8) | (c << 16)) & 0xff == a) && (((a | (b
        << 8) | (c << 16)) >> 8) & 0xff == b) && (((a | (b << 8) | (c << 16)) >> 16) & 0xff == c)
        && ((a | (b << 8) | (c << 16)) >> 24 == 0)) by (bit_vector);
}

/// The global triangles one meshlet record denotes: each packed word's
/// three local indices resolved through the meshlet's slice of the shared
/// vertex-remap array.
pub open spec fn spec_meshlet_triangles(
    m: HalaMeshlet,
    mverts: Seq<u32>,
    mprims: Seq<u32>,
) -> Seq<(u32, u32, u32)> {
    Seq::new(
        m.num_of_primitives as nat,
        |t: int|
            {
                let w = mprims[m.offset_of_primitives + t];
                (
                    mverts[m.offset_of_vertices + (w & 0xff)],
                    mverts[m.offset_of_vertices + ((w >> 8) & 0xff)],
                    mverts[m.offset_of_vertices + ((w >> 16) & 0xff)],
                )
            },
    )
}

/// The global triangles of the first `k` meshlet records, concatenated.
pub open spec fn spec_prim_meshlet_triangles_prefix(
    meshlets: Seq<HalaMeshlet>,
    mverts: Seq<u32>,
    mprims: Seq<u32>,
    k: int,
) -> Seq<(u32, u32, u32)>
    decreases k,
{
    if k <= 0 {
        Seq::empty()
    } else {
        spec_prim_meshlet_triangles_prefix(meshlets, mverts, mprims, k - 1)
            + spec_meshlet_triangles(meshlets[k - 1], mverts, mprims)
    }
}

/// Every meshlet record of the primitive honors the clustering limits, its
/// slices lie inside the shared arrays, its local indices stay below its
/// vertex count, and its remap entries name existing vertices.
pub open spec fn spec_prim_meshlets_wf(p: &HalaPrimitive) -> bool {
    forall|k: int|
        0 <= k < p.meshlets@.len() ==> {
            let m = #[trigger] p.meshlets@[k];
            &&& 0 < m.num_of_vertices <= MESHLET_MAX_VERTICES
            &&& 0 < m.num_of_primitives <= MESHLET_MAX_TRIANGLES
            &&& m.offset_of_vertices + m.num_of_vertices <= p.meshlet_vertices@.len()
            &&& m.offset_of_primitives + m.num_of_primitives <= p.meshlet_primitives@.len()
            &&& m.draw_index == 0
            &&& forall|t: int|
                0 <= t < m.num_of_primitives ==> {
                    let w = #[trigger] p.meshlet_primitives@[m.offset_of_primitives + t];
                    (w & 0xff) < m.num_of_vertices && ((w >> 8) & 0xff) < m.num_of_vertices && ((w
                        >> 16) & 0xff) < m.num_of_vertices && w >> 24 == 0
                }
            &&& forall|j: int|
                0 <= j < m.num_of_vertices ==> (#[trigger] p.meshlet_vertices@[m.offset_of_vertices
                    + j]) < p.vertices@.len()
        }
}

/// The meshlet records' slices are consecutive and exactly tile the shared
/// arrays: the first meshlet starts at offset zero, each next one starts
/// where the previous one ends, and the last one ends at the arrays'
/// lengths.
pub open spec fn spec_prim_meshlets_tile(p: &HalaPrimitive) -> bool {
    &&& (p.meshlets@.len() == 0 ==> p.meshlet_vertices@.len() == 0 && p.meshlet_primitives@.len()
        == 0)
    &&& (p.meshlets@.len() > 0 ==> {
        &&& p.meshlets@[0].offset_of_vertices == 0
        &&& p.meshlets@[0].offset_of_primitives == 0
        &&& p.meshlets@.last().offset_of_vertices + p.meshlets@.last().num_of_vertices
            == p.meshlet_vertices@.len()
        &&& p.meshlets@.last().offset_of_primitives + p.meshlets@.last().num_of_primitives
            == p.meshlet_primitives@.len()
    })
    &&& forall|k: int|
        1 <= k < p.meshlets@.len() ==> {
            let prev = p.meshlets@[k - 1];
            let m = #[trigger] p.meshlets@[k];
            m.offset_of_vertices == prev.offset_of_vertices + prev.num_of_vertices
                && m.offset_of_primitives == prev.offset_of_primitives + prev.num_of_primitives
        }
}

/// The union of all meshlets' triangle ranges covers every original
/// triangle exactly once: the multiset of the meshlets' global triangles
/// equals the multiset of the index array's triangles.
pub open spec fn spec_prim_meshlets_cover(p: &HalaPrimitive) -> bool {
    spec_prim_meshlet_triangles_prefix(
        p.meshlets@,
        p.meshlet_vertices@,
        p.meshlet_primitives@,
        p.meshlets@.len() as int,
    ).to_multiset() == spec_index_triangles(p.indices@).to_multiset()
}

/// Cluster the primitive's triangle list into meshlets and append the
/// derived meshlet records, the shared vertex-remap array and the shared
/// packed-triangle array. Every meshlet stays within the vertex and
/// triangle maxima, and the meshlets' triangle ranges cover every original
/// triangle exactly once.
#[verifier::rlimit(100)]
pub fn build_primitive_meshlets(prim: &mut HalaPrimitive) -> (r: Result<(), HalaRendererError>)
    requires
        old(prim).indices@.len() % 3 == 0,
        old(prim).indices@.len() <= 0x00FF_FFFF,
        forall|k: int|
            0 <= k < old(prim).indices@.len() ==> (#[trigger] old(prim).indices@[k]) < old(
                prim,
            ).vertices@.len(),
        spec_positions_in_range(old(prim).vertices@),
        old(prim).vertices@.len() * 44 <= usize::MAX,
        old(prim).meshlets@.len() == 0,
        old(prim).meshlet_vertices@.len() == 0,
        old(prim).meshlet_primitives@.len() == 0,
    ensures
        r is Ok,
        final(prim).indices == old(prim).indices,
        final(prim).vertices == old(prim).vertices,
        final(prim).material_index == old(prim).material_index,
        spec_prim_meshlets_wf(final(prim)),
        spec_prim_meshlets_tile(final(prim)),
        spec_prim_meshlets_cover(final(prim)),
        final(prim).meshlets@.len() <= 0x00FF_FFFF,
        final(prim).meshlet_vertices@.len() <= 64 * final(prim).meshlets@.len(),
        final(prim).meshlet_primitives@.len() <= 124 * final(prim).meshlets@.len(),
        final(prim).meshlet_primitives@.len() <= old(prim).indices@.len(),
{
    let n = prim.vertices.len();
    let vertex_bytes = vertex_seq_bytes(&prim.vertices);
    proof {
        assert(vertex_bytes@.len() == 44 * n);
        assert((44 * n) as int % 44int == 0 && (44 * n) as int / 44int == n as int)
            by (nonlinear_arith);
        assert forall|k: int, c: int|
            0 <= k < vertex_bytes@.len() as int / 44int && 0 <= c < 3 implies
            spec_position_word_in_range(#[trigger] spec_record_word(vertex_bytes@, 44, k, c)) by {
            lemma_vertex_seq_position_word(prim.vertices@, k, c);
        }
        assert(spec_position_bytes_in_range(vertex_bytes@, 44));
    }
    let clustering = match build_meshlets_clusters(
        &prim.indices,
        &vertex_bytes,
        44,
        MESHLET_MAX_VERTICES,
        MESHLET_MAX_TRIANGLES,
        F32_HALF,
    ) {
        Ok(clustering) => clustering,
        Err(err) => {
            return Err(err);
        },
    };
    let cluster_count = clustering.clusters.len();
    let cluster_vertex_total = clustering.vertices.len();
    let cluster_triangle_total = clustering.triangles.len();
    let ghost cl = clustering.clusters@;
    let ghost cverts = clustering.vertices@;
    let ghost ctris = clustering.triangles@;
    proof {
        assert(cverts.len() == cluster_vertex_total as int);
        assert(ctris.len() == cluster_triangle_total as int);
        lemma_clustering_prefix_len(cl, cverts, ctris, cl.len() as int);
        spec_clustering_triangles_prefix(cl, cverts, ctris, cl.len() as int).to_multiset_ensures();
        spec_index_triangles(prim.indices@).to_multiset_ensures();
        assert(spec_clustering_triangles_prefix(cl, cverts, ctris, cl.len() as int).len()
            == spec_index_triangles(prim.indices@).len());
        assert(cl.len() <= 0x00FF_FFFF);
    }
    let mut k: usize = 0;
    while k < cluster_count
        invariant
            k <= cluster_count,
            cluster_count == cl.len(),
            cluster_count <= 0x00FF_FFFF,
            cl == clustering.clusters@,
            cverts == clustering.vertices@,
            ctris == clustering.triangles@,
            cverts.len() <= usize::MAX,
            ctris.len() <= usize::MAX,
            n == prim.vertices@.len(),
            spec_position_bytes_in_range(vertex_bytes@, 44),
            prim.indices == old(prim).indices,
            prim.vertices == old(prim).vertices,
            prim.material_index == old(prim).material_index,
            vertex_bytes@.len() == 44 * n,
            spec_clustering_wf(
                &clustering,
                prim.indices@,
                n as int,
                MESHLET_MAX_VERTICES as int,
                MESHLET_MAX_TRIANGLES as int,
            ),
            prim.indices@.len() <= 0x00FF_FFFF,
            prim.meshlets@.len() == k,
            prim.meshlet_vertices@.len() <= 64 * k,
            prim.meshlet_primitives@.len() <= 124 * k,
            prim.meshlet_primitives@.len() == spec_clustering_triangles_prefix(
                cl,
                cverts,
                ctris,
                k as int,
            ).len(),
            spec_prim_meshlets_wf(&*prim),
            spec_prim_meshlets_tile(&*prim),
            spec_prim_meshlet_triangles_prefix(
                prim.meshlets@,
                prim.meshlet_vertices@,
                prim.meshlet_primitives@,
                k as int,
            ) == spec_clustering_triangles_prefix(cl, cverts, ctris, k as int),
        decreases cluster_count - k,
    {
        let ghost meshlets0 = prim.meshlets@;
        let ghost mverts0 = prim.meshlet_vertices@;
        let ghost mprims0 = prim.meshlet_primitives@;
        let cluster = clustering.clusters[k];
        let vertex_base = prim.meshlet_vertices.len();
        let triangle_base = prim.meshlet_primitives.len();

        // Copy the cluster's slice of the vertex remap, both into the
        // primitive's shared array and into the scratch used for bounds.
        let mut local_vertices: Vec<u32> = Vec::new();
        let mut j: usize = 0;
        while j < cluster.vertex_count as usize
            invariant
                j <= cluster.vertex_count as usize,
                cluster == cl[k as int],
                k < cl.len(),
                cverts == clustering.vertices@,
                ctris == clustering.triangles@,
                cverts.len() <= usize::MAX,
                ctris.len() <= usize::MAX,
                cluster_count == cl.len(),
                spec_cluster_wf(
                    cluster,
                    cverts,
                    ctris,
                    n as int,
                    MESHLET_MAX_VERTICES as int,
                    MESHLET_MAX_TRIANGLES as int,
                ),
                local_vertices@ == cverts.subrange(
                    cluster.vertex_offset as int,
                    cluster.vertex_offset + j,
                ),
            decreases cluster.vertex_count as usize - j,
        {
            let v = clustering.vertices[cluster.vertex_offset as usize + j];
            local_vertices.push(v);
            j = j + 1;
            proof {
                assert(local_vertices@ =~= cverts.subrange(
                    cluster.vertex_offset as int,
                    cluster.vertex_offset + j,
                ));
            }
        }

        // Copy the cluster's micro indices and pack each triangle's three
        // local indices into one 32-bit word.
        let mut local_triangles: Vec<u8> = Vec::new();
        let mut packed: Vec<u32> = Vec::new();
        let mut t: usize = 0;
        while t < cluster.triangle_count as usize
            invariant
                t <= cluster.triangle_count as usize,
                cluster == cl[k as int],
                k < cl.len(),
                cverts == clustering.vertices@,
                ctris == clustering.triangles@,
                cverts.len() <= usize::MAX,
                ctris.len() <= usize::MAX,
                cluster_count == cl.len(),
                spec_cluster_wf(
                    cluster,
                    cverts,
                    ctris,
                    n as int,
                    MESHLET_MAX_VERTICES as int,
                    MESHLET_MAX_TRIANGLES as int,
                ),
                local_triangles@ == ctris.subrange(
                    cluster.triangle_offset as int,
                    cluster.triangle_offset + 3 * t,
                ),
                packed@.len() == t,
                forall|u: int|
                    0 <= u < t ==> #[trigger] packed@[u] == spec_pack_local(
                        ctris[cluster.triangle_offset + 3 * u],
                        ctris[cluster.triangle_offset + 3 * u + 1],
                        ctris[cluster.triangle_offset + 3 * u + 2],
                    ),
            decreases cluster.triangle_count as usize - t,
        {
            let a = clustering.triangles[cluster.triangle_offset as usize + 3 * t];
            let b = clustering.triangles[cluster.triangle_offset as usize + 3 * t + 1];
            let c = clustering.triangles[cluster.triangle_offset as usize + 3 * t + 2];
            local_triangles.push(a);
            local_triangles.push(b);
            local_triangles.push(c);
            packed.push((a as u32) | ((b as u32) << 8) | ((c as u32) << 16));
            t = t + 1;
            proof {
                assert(local_triangles@ =~= ctris.subrange(
                    cluster.triangle_offset as int,
                    cluster.triangle_offset + 3 * t,
                ));
            }
        }

        proof {
            assert(local_triangles@.len() == 3 * cluster.triangle_count);
            assert(local_vertices@.len() == cluster.vertex_count);
            assert forall|u: int| 0 <= u < local_triangles@.len() implies (#[trigger]
            local_triangles@[u]) < local_vertices@.len() by {
                assert(local_triangles@[u] == ctris[cluster.triangle_offset + u]);
            }
            assert forall|j2: int| 0 <= j2 < local_vertices@.len() implies (#[trigger]
            local_vertices@[j2]) < vertex_bytes@.len() as int / 44int by {
                assert(local_vertices@[j2] == cverts[cluster.vertex_offset + j2]);
                assert((44 * n) as int / 44int == n as int) by (nonlinear_arith);
            }
            assert(vertex_bytes@.len() as int % 44int == 0 && local_triangles@.len() % 3 == 0) by {
                assert((44 * n) as int % 44int == 0) by (nonlinear_arith);
            }
        }
        let bounds = compute_meshlet_bounds_bits(&local_vertices, &local_triangles, &vertex_bytes, 44);
        proof {
            assert(vertex_base <= 64 * (k as int) && 64 * (k as int) < 0x1_0000_0000);
            assert(triangle_base <= 124 * (k as int) && 124 * (k as int) < 0x1_0000_0000);
        }
        let meshlet = HalaMeshlet {
            center: [bounds[0], bounds[1], bounds[2]],
            radius: bounds[3],
            cone_apex: [bounds[4], bounds[5], bounds[6]],
            cone_cutoff: bounds[10],
            cone_axis: [bounds[7], bounds[8], bounds[9]],
            num_of_vertices: cluster.vertex_count,
            num_of_primitives: cluster.triangle_count,
            offset_of_vertices: vertex_base as u32,
            offset_of_primitives: triangle_base as u32,
            draw_index: 0u32,
        };
        let ghost local_vertices_view = local_vertices@;
        let ghost packed_view = packed@;
        prim.meshlets.push(meshlet);
        let mut local_vertices_to_append = local_vertices;
        prim.meshlet_vertices.append(&mut local_vertices_to_append);
        let mut packed_to_append = packed;
        prim.meshlet_primitives.append(&mut packed_to_append);
        k = k + 1;
        proof {
            let ki = k - 1;
            assert(prim.meshlets@ == meshlets0 + seq![meshlet]);
            assert(prim.meshlet_vertices@ == mverts0 + local_vertices_view);
            assert(prim.meshlet_primitives@ == mprims0 + packed_view);
            assert(prim.meshlet_vertices@ == mverts0 + cverts.subrange(
                cl[ki].vertex_offset as int,
                cl[ki].vertex_offset + cl[ki].vertex_count,
            ));
            // The new record is well-formed.
            assert forall|u: int| 0 <= u < meshlet.num_of_primitives implies {
                let w = #[trigger] prim.meshlet_primitives@[meshlet.offset_of_primitives + u];
                (w & 0xff) < meshlet.num_of_vertices && ((w >> 8) & 0xff)
                    < meshlet.num_of_vertices && ((w >> 16) & 0xff) < meshlet.num_of_vertices && w
                    >> 24 == 0
            } by {
                assert(prim.meshlet_primitives@[meshlet.offset_of_primitives + u]
                    == packed_view[u]);
                assert(packed_view[u] == spec_pack_local(
                    ctris[cl[ki].triangle_offset + 3 * u],
                    ctris[cl[ki].triangle_offset + 3 * u + 1],
                    ctris[cl[ki].triangle_offset + 3 * u + 2],
                ));
                lemma_pack_unpack(
                    ctris[cl[ki].triangle_offset + 3 * u] as u32,
                    ctris[cl[ki].triangle_offset + 3 * u + 1] as u32,
                    ctris[cl[ki].triangle_offset + 3 * u + 2] as u32,
                );
                assert(spec_cluster_wf(
                    cl[ki],
                    cverts,
                    ctris,
                    n as int,
                    MESHLET_MAX_VERTICES as int,
                    MESHLET_MAX_TRIANGLES as int,
                ));
                assert(0 <= 3 * u < 3 * cl[ki].triangle_count);
                assert(ctris[cl[ki].triangle_offset + 3 * u] < cl[ki].vertex_count);
                assert(ctris[cl[ki].triangle_offset + (3 * u + 1)] < cl[ki].vertex_count);
                assert(ctris[cl[ki].triangle_offset + (3 * u + 2)] < cl[ki].vertex_count);
                assert(ctris[cl[ki].triangle_offset + 3 * u + 1] < cl[ki].vertex_count);
                assert(ctris[cl[ki].triangle_offset + 3 * u + 2] < cl[ki].vertex_count);
                assert(meshlet.num_of_vertices == cl[ki].vertex_count);
                assert((prim.meshlet_primitives@[meshlet.offset_of_primitives + u] & 0xff)
                    == ctris[cl[ki].triangle_offset + 3 * u] as u32);
            }
            assert forall|j2: int| 0 <= j2 < meshlet.num_of_vertices implies (#[trigger]
            prim.meshlet_vertices@[meshlet.offset_of_vertices + j2]) < prim.vertices@.len() by {
                assert(prim.meshlet_vertices@[meshlet.offset_of_vertices + j2]
                    == local_vertices_view[j2]);
                assert(local_vertices_view[j2] == cverts[cl[ki].vertex_offset + j2]);
            }
            assert forall|j2: int| 0 <= j2 < prim.meshlets@.len() implies {
                let m = #[trigger] prim.meshlets@[j2];
                &&& 0 < m.num_of_vertices <= MESHLET_MAX_VERTICES
                &&& 0 < m.num_of_primitives <= MESHLET_MAX_TRIANGLES
                &&& m.offset_of_vertices + m.num_of_vertices <= prim.meshlet_vertices@.len()
                &&& m.offset_of_primitives + m.num_of_primitives
                    <= prim.meshlet_primitives@.len()
                &&& m.draw_index == 0
                &&& forall|t2: int|
                    0 <= t2 < m.num_of_primitives ==> {
                        let w = #[trigger] prim.meshlet_primitives@[m.offset_of_primitives + t2];
                        (w & 0xff) < m.num_of_vertices && ((w >> 8) & 0xff) < m.num_of_vertices
                            && ((w >> 16) & 0xff) < m.num_of_vertices && w >> 24 == 0
                    }
                &&& forall|j3: int|
                    0 <= j3 < m.num_of_vertices ==> (#[trigger] prim.meshlet_vertices@[
                    m.offset_of_vertices + j3]) < prim.vertices@.len()
            } by {
                if j2 < ki {
                    let m = meshlets0[j2];
                    assert forall|t2: int| 0 <= t2 < m.num_of_primitives implies {
                        let w = #[trigger] prim.meshlet_primitives@[m.offset_of_primitives + t2];
                        (w & 0xff) < m.num_of_vertices && ((w >> 8) & 0xff) < m.num_of_vertices
                            && ((w >> 16) & 0xff) < m.num_of_vertices && w >> 24 == 0
                    } by {
                        assert(prim.meshlet_primitives@[m.offset_of_primitives + t2] == mprims0[
                            m.offset_of_primitives + t2]);
                    }
                    assert forall|j3: int| 0 <= j3 < m.num_of_vertices implies (#[trigger]
                    prim.meshlet_vertices@[m.offset_of_vertices + j3]) < prim.vertices@.len() by {
                        assert(prim.meshlet_vertices@[m.offset_of_vertices + j3] == mverts0[
                            m.offset_of_vertices + j3]);
                    }
                }
            }
            // The new meshlet's triangles equal the cluster's triangles.
            assert(spec_meshlet_triangles(meshlet, prim.meshlet_vertices@, prim.meshlet_primitives@)
                =~= spec_cluster_triangles(cl[ki], cverts, ctris)) by {
                assert forall|u: int| 0 <= u < cl[ki].triangle_count as int implies
                    spec_meshlet_triangles(
                        meshlet,
                        prim.meshlet_vertices@,
                        prim.meshlet_primitives@,
                    )[u] == spec_cluster_triangles(cl[ki], cverts, ctris)[u] by {
                    let w = prim.meshlet_primitives@[meshlet.offset_of_primitives + u];
                    assert(w == spec_pack_local(
                        ctris[cl[ki].triangle_offset + 3 * u],
                        ctris[cl[ki].triangle_offset + 3 * u + 1],
                        ctris[cl[ki].triangle_offset + 3 * u + 2],
                    ));
                    lemma_pack_unpack(
                        ctris[cl[ki].triangle_offset + 3 * u] as u32,
                        ctris[cl[ki].triangle_offset + 3 * u + 1] as u32,
                        ctris[cl[ki].triangle_offset + 3 * u + 2] as u32,
                    );
                }
            }
            // Older meshlets read only the untouched prefixes of the arrays.
            assert forall|ji: int| 0 <= ji < ki implies spec_meshlet_triangles(
                prim.meshlets@[ji],
                prim.meshlet_vertices@,
                prim.meshlet_primitives@,
            ) == spec_meshlet_triangles(meshlets0[ji], mverts0, mprims0) by {
                assert(prim.meshlets@[ji] == meshlets0[ji]);
                assert(spec_meshlet_triangles(
                    meshlets0[ji],
                    prim.meshlet_vertices@,
                    prim.meshlet_primitives@,
                ) =~= spec_meshlet_triangles(meshlets0[ji], mverts0, mprims0));
            }
            // So the running prefix extends by exactly the cluster's slice.
            assert forall|kk: int| 0 <= kk <= ki implies spec_prim_meshlet_triangles_prefix(
                prim.meshlets@,
                prim.meshlet_vertices@,
                prim.meshlet_primitives@,
                kk,
            ) == spec_prim_meshlet_triangles_prefix(meshlets0, mverts0, mprims0, kk) by {
                lemma_prim_prefix_stable(
                    meshlets0,
                    mverts0,
                    mprims0,
                    prim.meshlets@,
                    prim.meshlet_vertices@,
                    prim.meshlet_primitives@,
                    kk,
                );
            }
            assert(spec_prim_meshlet_triangles_prefix(
                prim.meshlets@,
                prim.meshlet_vertices@,
                prim.meshlet_primitives@,
                k as int,
            ) == spec_clustering_triangles_prefix(cl, cverts, ctris, k as int));
        }
    }
    proof {
        assert(spec_prim_meshlets_cover(&*prim));
        spec_clustering_triangles_prefix(cl, cverts, ctris, cl.len() as int).to_multiset_ensures();
        spec_index_triangles(prim.indices@).to_multiset_ensures();
        assert(prim.meshlet_primitives@.len() == spec_index_triangles(prim.indices@).len());
    }
    Ok(())
}

/// If every meshlet among the first `k` reads inside the old array
/// prefixes and the meshlet records agree, the concatenated triangles of
/// the first `k` meshlets do not change when the shared arrays grow.
pub proof fn lemma_prim_prefix_stable(
    meshlets0: Seq<HalaMeshlet>,
    mverts0: Seq<u32>,
    mprims0: Seq<u32>,
    meshlets1: Seq<HalaMeshlet>,
    mverts1: Seq<u32>,
    mprims1: Seq<u32>,
    k: int,
)
    requires
        k <= meshlets0.len(),
        k <= meshlets1.len(),
        forall|j: int| 0 <= j < k ==> #[trigger] meshlets1[j] == meshlets0[j],
        forall|j: int|
            0 <= j < k ==> spec_meshlet_triangles(#[trigger] meshlets1[j], mverts1, mprims1)
                == spec_meshlet_triangles(meshlets0[j], mverts0, mprims0),
    ensures
        spec_prim_meshlet_triangles_prefix(meshlets1, mverts1, mprims1, k)
            == spec_prim_meshlet_triangles_prefix(meshlets0, mverts0, mprims0, k),
    decreases k,
{
    if k > 0 {
        lemma_prim_prefix_stable(meshlets0, mverts0, mprims0, meshlets1, mverts1, mprims1, k - 1);
    }
}

} // verus!
