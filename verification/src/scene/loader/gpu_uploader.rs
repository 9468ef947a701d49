//! Scene upload: the one-pass pipeline moving a CPU scene into the GPU
//! scene model (cameras, lights, materials, textures, images, meshes, and —
//! per feature flag — meshlets and acceleration structures).

use vstd::prelude::*;
use crate::error::{HalaRendererError, format_index_message, format_two_index_message};
use crate::math::Mat4Bits;
use crate::math::{mat4_inverse, spec_mat4_inverse};
use crate::scene::cpu;
use crate::scene::cpu::node::{HalaNode, HALA_INVALID_INDEX};
use crate::scene::gpu;
use crate::scene::gpu::camera::spec_camera_record_matches;
use crate::scene::cpu::camera::spec_proj_matrix;

verus! {

/// The fixed maximum number of cameras uploaded to the device.
pub const MAX_CAMERA_COUNT: usize = 8;

/// The fixed maximum number of lights uploaded to the device.
pub const MAX_LIGHT_COUNT: usize = 32;

/// The machine-limit assumptions the uploader makes of a scene: every
/// back-reference of a node is a valid index or the sentinel, index arrays
/// describe whole triangles over existing vertices, and the per-primitive
/// byte sizes fit the address space.
pub open spec fn spec_scene_fits(s: cpu::HalaScene) -> bool {
    &&& s.nodes@.len() < 0xFFFF_FFFF
    &&& s.cameras@.len() < 0xFFFF_FFFF
    &&& s.meshes@.len() < 0xFFFF_FFFF
    &&& forall|i: int|
        0 <= i < s.nodes@.len() ==> {
            let n = #[trigger] s.nodes@[i];
            (n.light_index == HALA_INVALID_INDEX || n.light_index < s.lights@.len())
                && (n.mesh_index == HALA_INVALID_INDEX || n.mesh_index < s.meshes@.len())
        }
    &&& forall|m: int|
        0 <= m < s.meshes@.len() ==> (#[trigger] s.meshes@[m].primitives@.len()) < 0xFFFF_FFFF
    &&& forall|m: int, p: int|
        0 <= m < s.meshes@.len() && 0 <= p < s.meshes@[m].primitives@.len() ==> {
            let prim = #[trigger] s.meshes@[m].primitives@[p];
            &&& prim.vertices@.len() <= 0xFFFF_FFFF
            &&& prim.indices@.len() <= 0xFFFF_FFFF
            &&& prim.vertices@.len() * 44 <= usize::MAX
            &&& prim.indices@.len() * 4 <= usize::MAX
            &&& prim.indices@.len() % 3 == 0
            &&& forall|k: int|
                0 <= k < prim.indices@.len() ==> (#[trigger] prim.indices@[k])
                    < prim.vertices@.len()
        }
    &&& forall|i: int|
        0 <= i < s.image_data@.len() ==> (#[trigger] s.image_data@[i]).well_formed()
}

/// The first node owning camera `index`, searched from position `k` on.
pub open spec fn spec_first_camera_node_from(nodes: Seq<HalaNode>, index: u32, k: int) -> Option<
    int,
>
    decreases nodes.len() - k,
{
    if k < 0 || k >= nodes.len() {
        None
    } else if nodes[k].camera_index == index {
        Some(k)
    } else {
        spec_first_camera_node_from(nodes, index, k + 1)
    }
}

/// The first node owning camera `index`, if any.
pub open spec fn spec_first_camera_node(nodes: Seq<HalaNode>, index: u32) -> Option<int> {
    spec_first_camera_node_from(nodes, index, 0)
}

/// The number of cameras that reach the device: the camera count capped at
/// the fixed maximum.
pub open spec fn spec_packed_camera_count(s: cpu::HalaScene) -> int {
    if s.cameras@.len() <= MAX_CAMERA_COUNT {
        s.cameras@.len() as int
    } else {
        MAX_CAMERA_COUNT as int
    }
}

/// Every camera that reaches the device has an owning node.
pub open spec fn spec_cameras_have_nodes(s: cpu::HalaScene) -> bool {
    forall|i: int|
        0 <= i < spec_packed_camera_count(s) ==> (#[trigger] spec_first_camera_node(
            s.nodes@,
            i as u32,
        )) is Some
}

/// Find the first node whose camera back-reference equals `index`.
fn find_camera_node(nodes: &Vec<HalaNode>, index: u32) -> (r: Option<usize>)
    ensures
        match r {
            Some(i) => i < nodes@.len() && spec_first_camera_node(nodes@, index) == Some(i as int),
            None => spec_first_camera_node(nodes@, index) is None,
        },
{
    let n = nodes.len();
    let mut i: usize = 0;
    while i < n
        invariant
            i <= n,
            n == nodes@.len(),
            spec_first_camera_node(nodes@, index) == spec_first_camera_node_from(
                nodes@,
                index,
                i as int,
            ),
        decreases n - i,
    {
        if nodes[i].camera_index == index {
            return Some(i);
        }
        i = i + 1;
    }
    None
}

/// The arrays the camera pass produces: view matrices (the inverses of the
/// owning nodes' world transforms), the cameras' projection matrices, and
/// the packed camera records, all truncated to the camera maximum.
fn build_camera_arrays(scene_in_cpu: &cpu::HalaScene) -> (r: Result<
    (Vec<Mat4Bits>, Vec<Mat4Bits>, Vec<gpu::HalaCamera>),
    HalaRendererError,
>)
    requires
        spec_scene_fits(*scene_in_cpu),
    ensures
        r is Ok <==> spec_cameras_have_nodes(*scene_in_cpu),
        r matches Ok(t) ==> {
            &&& t.0@.len() == spec_packed_camera_count(*scene_in_cpu)
            &&& t.1@.len() == spec_packed_camera_count(*scene_in_cpu)
            &&& t.2@.len() == spec_packed_camera_count(*scene_in_cpu)
            &&& forall|i: int|
                0 <= i < spec_packed_camera_count(*scene_in_cpu) ==> {
                    &&& (#[trigger] spec_first_camera_node(scene_in_cpu.nodes@, i as u32))
                        matches Some(ni)
                    &&& t.0@[i].e@ == spec_mat4_inverse(
                        scene_in_cpu.nodes@[ni].world_transform.e@,
                    )
                    &&& t.1@[i] == spec_proj_matrix(scene_in_cpu.cameras@[i])
                    &&& spec_camera_record_matches(
                        t.2@[i],
                        scene_in_cpu.nodes@[ni],
                        scene_in_cpu.cameras@[i],
                    )
                }
        },
{
    let camera_total = scene_in_cpu.cameras.len();
    let count = if camera_total > MAX_CAMERA_COUNT {
        MAX_CAMERA_COUNT
    } else {
        camera_total
    };
    let mut camera_view_matrices: Vec<Mat4Bits> = Vec::new();
    let mut camera_proj_matrices: Vec<Mat4Bits> = Vec::new();
    let mut cameras: Vec<gpu::HalaCamera> = Vec::new();
    let mut index: usize = 0;
    while index < count
        invariant
            index <= count,
            count == spec_packed_camera_count(*scene_in_cpu),
            count <= scene_in_cpu.cameras@.len(),
            camera_view_matrices@.len() == index,
            camera_proj_matrices@.len() == index,
            cameras@.len() == index,
            forall|i: int|
                0 <= i < index ==> {
                    &&& (#[trigger] spec_first_camera_node(scene_in_cpu.nodes@, i as u32))
                        matches Some(ni)
                    &&& camera_view_matrices@[i].e@ == spec_mat4_inverse(
                        scene_in_cpu.nodes@[ni].world_transform.e@,
                    )
                    &&& camera_proj_matrices@[i] == spec_proj_matrix(scene_in_cpu.cameras@[i])
                    &&& spec_camera_record_matches(
                        cameras@[i],
                        scene_in_cpu.nodes@[ni],
                        scene_in_cpu.cameras@[i],
                    )
                },
        decreases count - index,
    {
        let camera_node_index = match find_camera_node(&scene_in_cpu.nodes, index as u32) {
            Some(i) => i,
            None => {
                return Err(
                    HalaRendererError::new(
                        format_index_message(
                            "The camera node of the camera ",
                            index,
                            " is not found.",
                        ).as_str(),
                        None,
                    ),
                );
            },
        };
        let camera_node = &scene_in_cpu.nodes[camera_node_index];
        let camera = &scene_in_cpu.cameras[index];
        camera_view_matrices.push(mat4_inverse(&camera_node.world_transform));
        camera_proj_matrices.push(camera.get_proj_matrix());
        cameras.push(gpu::HalaCamera::new(camera_node, camera));
        index = index + 1;
    }
    Ok((camera_view_matrices, camera_proj_matrices, cameras))
}

/// The node indices carrying a light among the first `k` nodes, in node
/// order.
pub open spec fn spec_light_nodes_prefix(nodes: Seq<HalaNode>, k: int) -> Seq<int>
    decreases k,
{
    if k <= 0 {
        Seq::empty()
    } else if nodes[k - 1].light_index != HALA_INVALID_INDEX {
        spec_light_nodes_prefix(nodes, k - 1) + seq![k - 1]
    } else {
        spec_light_nodes_prefix(nodes, k - 1)
    }
}

/// All node indices carrying a light, in node order.
pub open spec fn spec_light_nodes(nodes: Seq<HalaNode>) -> Seq<int> {
    spec_light_nodes_prefix(nodes, nodes.len() as int)
}

/// Every selected light node lies among the first `k` nodes.
pub proof fn lemma_light_nodes_prefix_bounds(nodes: Seq<HalaNode>, k: int)
    ensures
        forall|j: int|
            0 <= j < spec_light_nodes_prefix(nodes, k).len() ==> 0 <= #[trigger]
            spec_light_nodes_prefix(nodes, k)[j] < k,
    decreases k,
{
    if k > 0 {
        lemma_light_nodes_prefix_bounds(nodes, k - 1);
        let a = spec_light_nodes_prefix(nodes, k - 1);
        assert forall|j: int| 0 <= j < spec_light_nodes_prefix(nodes, k).len() implies 0
            <= #[trigger] spec_light_nodes_prefix(nodes, k)[j] < k by {
            if nodes[k - 1].light_index != HALA_INVALID_INDEX {
                assert(spec_light_nodes_prefix(nodes, k) == a + seq![k - 1]);
                if j < a.len() {
                    assert(spec_light_nodes_prefix(nodes, k)[j] == a[j]);
                } else {
                    assert(spec_light_nodes_prefix(nodes, k)[j] == k - 1);
                }
            } else {
                assert(spec_light_nodes_prefix(nodes, k) == a);
            }
        }
    }
}

/// A shorter prefix of the node array selects a prefix of the light nodes.
pub proof fn lemma_light_nodes_prefix_extends(nodes: Seq<HalaNode>, k1: int, k2: int)
    requires
        0 <= k1 <= k2,
    ensures
        spec_light_nodes_prefix(nodes, k1).len() <= spec_light_nodes_prefix(nodes, k2).len(),
        spec_light_nodes_prefix(nodes, k2).take(spec_light_nodes_prefix(nodes, k1).len() as int)
            == spec_light_nodes_prefix(nodes, k1),
    decreases k2 - k1,
{
    if k1 < k2 {
        lemma_light_nodes_prefix_extends(nodes, k1, k2 - 1);
        let a = spec_light_nodes_prefix(nodes, k2 - 1);
        let b = spec_light_nodes_prefix(nodes, k1);
        if nodes[k2 - 1].light_index != HALA_INVALID_INDEX {
            assert((a + seq![k2 - 1]).take(b.len() as int) =~= a.take(b.len() as int));
        }
    } else {
        assert(spec_light_nodes_prefix(nodes, k1).take(
            spec_light_nodes_prefix(nodes, k1).len() as int,
        ) =~= spec_light_nodes_prefix(nodes, k1));
    }
}

/// The number of lights that reach the device: the light-carrying node
/// count capped at the fixed maximum.
pub open spec fn spec_packed_light_count(s: cpu::HalaScene) -> int {
    if spec_light_nodes(s.nodes@).len() <= MAX_LIGHT_COUNT {
        spec_light_nodes(s.nodes@).len() as int
    } else {
        MAX_LIGHT_COUNT as int
    }
}

/// The CPU light a selected node index refers to.
pub open spec fn spec_light_of_node(s: cpu::HalaScene, ni: int) -> cpu::light::HalaLight {
    s.lights@[s.nodes@[ni].light_index as int]
}

/// The light pass's relation to the scene: one packed record and one
/// normalized box per light-carrying node in node order, truncated to the
/// light maximum.
pub open spec fn spec_light_arrays_ok(
    s: cpu::HalaScene,
    lights: Seq<gpu::HalaLight>,
    aabbs: Seq<gpu::light::HalaAABB>,
) -> bool {
    &&& lights.len() == spec_packed_light_count(s)
    &&& aabbs.len() == spec_packed_light_count(s)
    &&& forall|k: int|
        0 <= k < spec_packed_light_count(s) ==> {
            let ni = spec_light_nodes(s.nodes@)[k];
            let l = spec_light_of_node(s, ni);
            let w = s.nodes@[ni].world_transform.e@;
            &&& gpu::light::spec_light_record_matches(#[trigger] lights[k], l, w)
            &&& gpu::light::spec_light_aabb_matches(aabbs[k], l, w)
        }
}

/// The arrays the light pass produces: packed light records and their
/// normalized bounding boxes, one per light-carrying node in node order,
/// truncated to the light maximum.
fn build_light_arrays(scene_in_cpu: &cpu::HalaScene) -> (r: (
    Vec<gpu::HalaLight>,
    Vec<gpu::light::HalaAABB>,
))
    requires
        spec_scene_fits(*scene_in_cpu),
    ensures
        spec_light_arrays_ok(*scene_in_cpu, r.0@, r.1@),
{
    let n = scene_in_cpu.nodes.len();
    let mut lights: Vec<gpu::HalaLight> = Vec::new();
    let mut light_aabbs: Vec<gpu::light::HalaAABB> = Vec::new();
    let mut idx: usize = 0;
    while idx < n && lights.len() < MAX_LIGHT_COUNT
        invariant
            idx <= n,
            n == scene_in_cpu.nodes@.len(),
            spec_scene_fits(*scene_in_cpu),
            lights@.len() == spec_light_nodes_prefix(scene_in_cpu.nodes@, idx as int).len(),
            lights@.len() <= MAX_LIGHT_COUNT,
            light_aabbs@.len() == lights@.len(),
            forall|k: int|
                0 <= k < lights@.len() ==> {
                    let ni = spec_light_nodes_prefix(scene_in_cpu.nodes@, idx as int)[k];
                    let l = spec_light_of_node(*scene_in_cpu, ni);
                    let w = scene_in_cpu.nodes@[ni].world_transform.e@;
                    &&& gpu::light::spec_light_record_matches(#[trigger] lights@[k], l, w)
                    &&& gpu::light::spec_light_aabb_matches(light_aabbs@[k], l, w)
                },
        decreases n - idx,
    {
        let ghost prev = spec_light_nodes_prefix(scene_in_cpu.nodes@, idx as int);
        let node = &scene_in_cpu.nodes[idx];
        if node.light_index != HALA_INVALID_INDEX {
            let light_in_cpu = &scene_in_cpu.lights[node.light_index as usize];
            let (light, light_aabb) = gpu::light::build_light_record(light_in_cpu, node);
            lights.push(light);
            light_aabbs.push(light_aabb);
            proof {
                assert(spec_light_nodes_prefix(scene_in_cpu.nodes@, idx + 1) =~= prev + seq![
                    idx as int,
                ]);
            }
        } else {
            proof {
                assert(spec_light_nodes_prefix(scene_in_cpu.nodes@, idx + 1) =~= prev);
            }
        }
        idx = idx + 1;
    }
    proof {
        let nodes = scene_in_cpu.nodes@;
        let pref = spec_light_nodes_prefix(nodes, idx as int);
        lemma_light_nodes_prefix_extends(nodes, idx as int, n as int);
        lemma_light_nodes_prefix_bounds(nodes, idx as int);
        if idx < n {
            assert(lights@.len() == MAX_LIGHT_COUNT);
        }
        assert(lights@.len() == spec_packed_light_count(*scene_in_cpu));
        assert forall|k: int| 0 <= k < spec_packed_light_count(*scene_in_cpu) implies {
            let ni = spec_light_nodes(nodes)[k];
            let l = spec_light_of_node(*scene_in_cpu, ni);
            let w = nodes[ni].world_transform.e@;
            &&& gpu::light::spec_light_record_matches(#[trigger] lights@[k], l, w)
            &&& gpu::light::spec_light_aabb_matches(light_aabbs@[k], l, w)
        } by {
            assert(spec_light_nodes(nodes).take(pref.len() as int) == pref);
            assert(pref[k] == spec_light_nodes(nodes).take(pref.len() as int)[k]);
            assert(spec_light_nodes(nodes)[k] == pref[k]);
        }
        assert(spec_light_arrays_ok(*scene_in_cpu, lights@, light_aabbs@));
    }
    (lights, light_aabbs)
}

/// The material pass's relation to the scene: one single-record uniform
/// buffer per material, holding the packed derived record, and the parallel
/// array of material type tags.
pub open spec fn spec_material_buffers_ok(
    s: cpu::HalaScene,
    bufs: Seq<crate::gfx::HalaBuffer>,
    types: Seq<u32>,
) -> bool {
    &&& bufs.len() == s.materials@.len()
    &&& types.len() == s.materials@.len()
    &&& forall|i: int|
        0 <= i < s.materials@.len() ==> {
            let gm = gpu::HalaMaterial::from_spec(&s.materials@[i]);
            &&& (#[trigger] bufs[i]).size == gpu::material::MATERIAL_BYTE_SIZE as u64
            &&& bufs[i].usage == crate::gfx::BUFFER_USAGE_UNIFORM_BUFFER
                | crate::gfx::BUFFER_USAGE_TRANSFER_DST
            &&& bufs[i].data@ == gpu::material::spec_material_bytes(gm)
            &&& types[i] == gm._type
        }
}

/// The material pass: one device buffer per material, each holding exactly
/// one packed record, uploaded through the shared staging buffer.
fn build_material_buffers(
    context: &mut crate::gfx::HalaContext,
    transfer_command_buffers: &crate::gfx::HalaCommandBufferSet,
    scene_in_cpu: &cpu::HalaScene,
    staging_buffer: &crate::gfx::HalaBuffer,
) -> (r: (Vec<crate::gfx::HalaBuffer>, Vec<u32>))
    requires
        staging_buffer.size >= gpu::material::MATERIAL_BYTE_SIZE as u64,
    ensures
        spec_material_buffers_ok(*scene_in_cpu, r.0@, r.1@),
{
    let n = scene_in_cpu.materials.len();
    let mut material_buffers: Vec<crate::gfx::HalaBuffer> = Vec::new();
    let mut material_types: Vec<u32> = Vec::new();
    let mut i: usize = 0;
    while i < n
        invariant
            i <= n,
            n == scene_in_cpu.materials@.len(),
            staging_buffer.size >= gpu::material::MATERIAL_BYTE_SIZE as u64,
            material_buffers@.len() == i,
            material_types@.len() == i,
            forall|j: int|
                0 <= j < i ==> {
                    let gm = gpu::HalaMaterial::from_spec(&scene_in_cpu.materials@[j]);
                    &&& (#[trigger] material_buffers@[j]).size
                        == gpu::material::MATERIAL_BYTE_SIZE as u64
                    &&& material_buffers@[j].usage == crate::gfx::BUFFER_USAGE_UNIFORM_BUFFER
                        | crate::gfx::BUFFER_USAGE_TRANSFER_DST
                    &&& material_buffers@[j].data@ == gpu::material::spec_material_bytes(gm)
                    &&& material_types@[j] == gm._type
                },
        decreases n - i,
    {
        let gpu_material = gpu::HalaMaterial::from_material(&scene_in_cpu.materials[i]);
        let name = format_index_message("material_", i, ".buffer");
        let mut material_buffer = crate::gfx::HalaBuffer::new(
            context,
            gpu::material::MATERIAL_BYTE_SIZE as u64,
            crate::gfx::BUFFER_USAGE_UNIFORM_BUFFER | crate::gfx::BUFFER_USAGE_TRANSFER_DST,
            crate::gfx::HalaMemoryLocation::GpuOnly,
            name.as_str(),
        );
        let mut bytes: Vec<u8> = Vec::new();
        gpu::material::append_material_bytes(&mut bytes, &gpu_material);
        material_buffer.update_gpu_memory_with_buffer(
            &bytes,
            staging_buffer,
            transfer_command_buffers,
        );
        material_types.push(gpu_material._type);
        material_buffers.push(material_buffer);
        i = i + 1;
    }
    (material_buffers, material_types)
}

/// Every texture's image maps to an existing image payload.
pub open spec fn spec_texture_lookups_ok(s: cpu::HalaScene) -> bool {
    forall|t: int|
        0 <= t < s.texture2image_mapping@.len() ==> (#[trigger] s.texture2image_mapping@[t])
            < s.image2data_mapping@.len()
}

/// The texture pass's relation to the scene: entry `t` is the payload index
/// behind texture `t`'s image.
pub open spec fn spec_textures_ok(s: cpu::HalaScene, textures: Seq<u32>) -> bool {
    &&& textures.len() == s.texture2image_mapping@.len()
    &&& forall|t: int|
        0 <= t < textures.len() ==> #[trigger] textures[t] == s.image2data_mapping@[(
        s.texture2image_mapping@[t]) as int]
}

/// The fixed sampler policy: linear filtering, linear mipmaps, repeat
/// addressing, no LOD bias, no anisotropy.
pub open spec fn spec_samplers_ok(samplers: Seq<crate::gfx::HalaSampler>, count: int) -> bool {
    &&& samplers.len() == count
    &&& forall|t: int|
        0 <= t < count ==> {
            let sm = #[trigger] samplers[t];
            &&& sm.filters == (crate::gfx::HalaFilter::Linear, crate::gfx::HalaFilter::Linear)
            &&& sm.mipmap_mode == crate::gfx::HalaSamplerMipmapMode::Linear
            &&& sm.address_modes == (
                crate::gfx::HalaSamplerAddressMode::Repeat,
                crate::gfx::HalaSamplerAddressMode::Repeat,
                crate::gfx::HalaSamplerAddressMode::Repeat,
            )
            &&& sm.mip_lod_bias == crate::math::F32_ZERO
            &&& !sm.anisotropy_enable
            &&& sm.max_anisotropy == crate::math::F32_ZERO
            &&& sm.lod == (crate::math::F32_ZERO, crate::math::F32_ZERO)
        }
}

/// The texture pass: resolve each texture's payload index and create one
/// sampler per texture with the fixed policy. Fails exactly when some
/// texture's image has no payload.
fn build_texture_tables(scene_in_cpu: &cpu::HalaScene) -> (r: Result<
    (Vec<u32>, Vec<crate::gfx::HalaSampler>),
    HalaRendererError,
>)
    ensures
        r is Ok <==> spec_texture_lookups_ok(*scene_in_cpu),
        r matches Ok(t) ==> spec_textures_ok(*scene_in_cpu, t.0@) && spec_samplers_ok(
            t.1@,
            scene_in_cpu.texture2image_mapping@.len() as int,
        ),
{
    let n = scene_in_cpu.texture2image_mapping.len();
    let mut textures: Vec<u32> = Vec::new();
    let mut samplers: Vec<crate::gfx::HalaSampler> = Vec::new();
    let mut index: usize = 0;
    while index < n
        invariant
            index <= n,
            n == scene_in_cpu.texture2image_mapping@.len(),
            textures@.len() == index,
            samplers@.len() == index,
            forall|t: int|
                0 <= t < index ==> (#[trigger] scene_in_cpu.texture2image_mapping@[t])
                    < scene_in_cpu.image2data_mapping@.len(),
            forall|t: int|
                0 <= t < index ==> #[trigger] textures@[t] == scene_in_cpu.image2data_mapping@[(
                scene_in_cpu.texture2image_mapping@[t]) as int],
            spec_samplers_ok(samplers@, index as int),
        decreases n - index,
    {
        let image_index = scene_in_cpu.texture2image_mapping[index];
        if (image_index as usize) >= scene_in_cpu.image2data_mapping.len() {
            return Err(
                HalaRendererError::new(
                    format_index_message(
                        "The image ",
                        image_index as usize,
                        " is not found.",
                    ).as_str(),
                    None,
                ),
            );
        }
        let data_index = scene_in_cpu.image2data_mapping[image_index as usize];
        textures.push(data_index);
        let name = format_index_message("texture_", index, ".sampler");
        samplers.push(
            crate::gfx::HalaSampler::new(
                (crate::gfx::HalaFilter::Linear, crate::gfx::HalaFilter::Linear),
                crate::gfx::HalaSamplerMipmapMode::Linear,
                (
                    crate::gfx::HalaSamplerAddressMode::Repeat,
                    crate::gfx::HalaSamplerAddressMode::Repeat,
                    crate::gfx::HalaSamplerAddressMode::Repeat,
                ),
                crate::math::F32_ZERO,
                false,
                crate::math::F32_ZERO,
                (crate::math::F32_ZERO, crate::math::F32_ZERO),
                name.as_str(),
            ),
        );
        index = index + 1;
    }
    Ok((textures, samplers))
}

/// The largest payload byte size among the first `k` image payloads.
pub open spec fn spec_max_image_bytes(imgs: Seq<cpu::image_data::HalaImageData>, k: int) -> int
    decreases k,
{
    if k <= 0 {
        0
    } else {
        let prev = spec_max_image_bytes(imgs, k - 1);
        let b = imgs[k - 1].num_of_bytes as int;
        if b > prev {
            b
        } else {
            prev
        }
    }
}

/// Every payload among the first `k` fits the maximum.
pub proof fn lemma_max_image_bytes_bound(imgs: Seq<cpu::image_data::HalaImageData>, k: int)
    ensures
        forall|i: int|
            0 <= i < k ==> (#[trigger] imgs[i].num_of_bytes) as int <= spec_max_image_bytes(
                imgs,
                k,
            ),
        spec_max_image_bytes(imgs, k) >= 0,
    decreases k,
{
    if k > 0 {
        lemma_max_image_bytes_bound(imgs, k - 1);
    }
}

/// The pipeline stages that will read uploaded images, per feature flags.
pub open spec fn spec_image_dst_stages(use_for_mesh_shader: bool, use_for_ray_tracing: bool) -> u64 {
    (if use_for_mesh_shader {
        crate::gfx::PIPELINE_STAGE_TASK_SHADER | crate::gfx::PIPELINE_STAGE_MESH_SHADER
    } else {
        crate::gfx::PIPELINE_STAGE_NONE
    }) | (if use_for_ray_tracing {
        crate::gfx::PIPELINE_STAGE_RAY_TRACING_SHADER
    } else {
        crate::gfx::PIPELINE_STAGE_NONE
    }) | crate::gfx::PIPELINE_STAGE_VERTEX_SHADER | crate::gfx::PIPELINE_STAGE_FRAGMENT_SHADER
        | crate::gfx::PIPELINE_STAGE_COMPUTE_SHADER | crate::gfx::PIPELINE_STAGE_TRANSFER
}

/// The image pass's relation to the scene: one sampled 2D image per decoded
/// payload, holding the payload's device bytes — unless every payload is
/// empty, in which case no image is created at all.
pub open spec fn spec_images_ok(s: cpu::HalaScene, images: Seq<crate::gfx::HalaImage>) -> bool {
    if spec_max_image_bytes(s.image_data@, s.image_data@.len() as int) > 0 {
        &&& images.len() == s.image_data@.len()
        &&& forall|i: int|
            0 <= i < images.len() ==> {
                let img = #[trigger] images[i];
                let src = s.image_data@[i];
                &&& img.usage == crate::gfx::IMAGE_USAGE_SAMPLED
                    | crate::gfx::IMAGE_USAGE_TRANSFER_DST
                &&& img.format == src.format
                &&& img.width == src.width
                &&& img.height == src.height
                &&& img.mip_levels == 1
                &&& img.array_layers == 1
                &&& img.memory_location == crate::gfx::HalaMemoryLocation::GpuOnly
                &&& img.data@ == cpu::image_data::spec_image_payload_bytes(&src.data_type)
            }
    } else {
        images.len() == 0
    }
}

/// The image pass: one image staging buffer sized to the largest payload,
/// reused for every image in sequence.
fn build_images(
    context: &mut crate::gfx::HalaContext,
    graphics_command_buffers: &crate::gfx::HalaCommandBufferSet,
    scene_in_cpu: &cpu::HalaScene,
    use_for_mesh_shader: bool,
    use_for_ray_tracing: bool,
) -> (r: Vec<crate::gfx::HalaImage>)
    requires
        spec_scene_fits(*scene_in_cpu),
    ensures
        spec_images_ok(*scene_in_cpu, r@),
{
    let n = scene_in_cpu.image_data.len();
    let mut max_texture_size: usize = 0;
    let mut i: usize = 0;
    while i < n
        invariant
            i <= n,
            n == scene_in_cpu.image_data@.len(),
            max_texture_size as int == spec_max_image_bytes(scene_in_cpu.image_data@, i as int),
        decreases n - i,
    {
        let b = scene_in_cpu.image_data[i].num_of_bytes;
        if b > max_texture_size {
            max_texture_size = b;
        }
        i = i + 1;
    }
    let mut images: Vec<crate::gfx::HalaImage> = Vec::new();
    if max_texture_size > 0 {
        let image_staging = crate::gfx::HalaBuffer::new(
            context,
            max_texture_size as u64,
            crate::gfx::BUFFER_USAGE_TRANSFER_SRC,
            crate::gfx::HalaMemoryLocation::CpuToGpu,
            "image_staging.buffer",
        );
        let dst_stages: u64 = (if use_for_mesh_shader {
            crate::gfx::PIPELINE_STAGE_TASK_SHADER | crate::gfx::PIPELINE_STAGE_MESH_SHADER
        } else {
            crate::gfx::PIPELINE_STAGE_NONE
        }) | (if use_for_ray_tracing {
            crate::gfx::PIPELINE_STAGE_RAY_TRACING_SHADER
        } else {
            crate::gfx::PIPELINE_STAGE_NONE
        }) | crate::gfx::PIPELINE_STAGE_VERTEX_SHADER | crate::gfx::PIPELINE_STAGE_FRAGMENT_SHADER
            | crate::gfx::PIPELINE_STAGE_COMPUTE_SHADER | crate::gfx::PIPELINE_STAGE_TRANSFER;
        let mut index: usize = 0;
        proof {
            lemma_max_image_bytes_bound(scene_in_cpu.image_data@, n as int);
        }
        while index < n
            invariant
                index <= n,
                n == scene_in_cpu.image_data@.len(),
                spec_scene_fits(*scene_in_cpu),
                image_staging.size == max_texture_size as u64,
                forall|j: int|
                    0 <= j < n ==> (#[trigger] scene_in_cpu.image_data@[j].num_of_bytes) as int
                        <= max_texture_size as int,
                images@.len() == index,
                forall|j: int|
                    0 <= j < index ==> {
                        let img = #[trigger] images@[j];
                        let src = scene_in_cpu.image_data@[j];
                        &&& img.usage == crate::gfx::IMAGE_USAGE_SAMPLED
                            | crate::gfx::IMAGE_USAGE_TRANSFER_DST
                        &&& img.format == src.format
                        &&& img.width == src.width
                        &&& img.height == src.height
                        &&& img.mip_levels == 1
                        &&& img.array_layers == 1
                        &&& img.memory_location == crate::gfx::HalaMemoryLocation::GpuOnly
                        &&& img.data@ == cpu::image_data::spec_image_payload_bytes(&src.data_type)
                    },
            decreases n - index,
        {
            let texture = &scene_in_cpu.image_data[index];
            let name = format_index_message("texture_", index, ".image");
            let mut image = crate::gfx::HalaImage::new_2d(
                crate::gfx::IMAGE_USAGE_SAMPLED | crate::gfx::IMAGE_USAGE_TRANSFER_DST,
                texture.format,
                texture.width,
                texture.height,
                1,
                1,
                crate::gfx::HalaMemoryLocation::GpuOnly,
                name.as_str(),
            );
            let payload = texture.payload_bytes();
            image.update_gpu_memory_with_buffer(
                &payload,
                dst_stages,
                &image_staging,
                graphics_command_buffers,
            );
            images.push(image);
            index = index + 1;
        }
    }
    images
}


/// The larger of one primitive's vertex-array and index-array byte sizes,
/// maximized over the first `k` primitives.
pub open spec fn spec_prim_max_bytes(prims: Seq<cpu::mesh::HalaPrimitive>, k: int) -> int
    decreases k,
{
    if k <= 0 {
        0
    } else {
        let prev = spec_prim_max_bytes(prims, k - 1);
        let vb = prims[k - 1].vertices@.len() * 44;
        let ib = prims[k - 1].indices@.len() * 4;
        let cur = if vb > ib {
            vb as int
        } else {
            ib as int
        };
        if cur > prev {
            cur
        } else {
            prev
        }
    }
}

/// Every primitive's buffer sizes among the first `k` fit the maximum.
pub proof fn lemma_prim_max_bytes_bound(prims: Seq<cpu::mesh::HalaPrimitive>, k: int)
    ensures
        spec_prim_max_bytes(prims, k) >= 0,
        forall|p: int|
            0 <= p < k ==> (#[trigger] prims[p].vertices@.len()) * 44 <= spec_prim_max_bytes(
                prims,
                k,
            ) && prims[p].indices@.len() * 4 <= spec_prim_max_bytes(prims, k),
    decreases k,
{
    if k > 0 {
        lemma_prim_max_bytes_bound(prims, k - 1);
    }
}

/// The largest single vertex-array or index-array byte size over the first
/// `k` meshes.
pub open spec fn spec_mesh_max_bytes(meshes: Seq<cpu::mesh::HalaMesh>, k: int) -> int
    decreases k,
{
    if k <= 0 {
        0
    } else {
        let prev = spec_mesh_max_bytes(meshes, k - 1);
        let cur = spec_prim_max_bytes(
            meshes[k - 1].primitives@,
            meshes[k - 1].primitives@.len() as int,
        );
        if cur > prev {
            cur
        } else {
            prev
        }
    }
}

/// Every primitive's buffer sizes fit the scene-wide maximum.
pub proof fn lemma_mesh_max_bytes_bound(meshes: Seq<cpu::mesh::HalaMesh>, k: int)
    ensures
        spec_mesh_max_bytes(meshes, k) >= 0,
        forall|m: int, p: int|
            0 <= m < k && 0 <= p < meshes[m].primitives@.len() ==> {
                let prim = #[trigger] meshes[m].primitives@[p];
                prim.vertices@.len() * 44 <= spec_mesh_max_bytes(meshes, k)
                    && prim.indices@.len() * 4 <= spec_mesh_max_bytes(meshes, k)
            },
    decreases k,
{
    if k > 0 {
        lemma_mesh_max_bytes_bound(meshes, k - 1);
        lemma_prim_max_bytes_bound(
            meshes[k - 1].primitives@,
            meshes[k - 1].primitives@.len() as int,
        );
    }
}

/// The last node referencing mesh `m` among the first `k` nodes, if any:
/// the transform-assignment pass is last-writer-wins.
pub open spec fn spec_last_mesh_node(nodes: Seq<HalaNode>, m: u32, k: int) -> Option<int>
    decreases k,
{
    if k <= 0 {
        None
    } else if nodes[k - 1].mesh_index == m {
        Some(k - 1)
    } else {
        spec_last_mesh_node(nodes, m, k - 1)
    }
}

/// The world transform a mesh ends up with: that of the last node
/// referencing it, or identity if no node does.
pub open spec fn spec_mesh_transform(nodes: Seq<HalaNode>, m: u32) -> Seq<u32> {
    match spec_last_mesh_node(nodes, m, nodes.len() as int) {
        Some(ni) => nodes[ni].world_transform.e@,
        None => crate::math::spec_mat4_identity(),
    }
}

/// The usage of a vertex buffer: vertex input, transfer destination,
/// device-addressable storage, and acceleration-structure build input when
/// uploading for ray tracing.
pub open spec fn spec_vertex_buffer_usage(use_for_ray_tracing: bool) -> u32 {
    crate::gfx::BUFFER_USAGE_VERTEX_BUFFER | crate::gfx::BUFFER_USAGE_TRANSFER_DST | (
    if use_for_ray_tracing {
        crate::gfx::BUFFER_USAGE_ACCELERATION_STRUCTURE_BUILD_INPUT_READ_ONLY
    } else {
        crate::gfx::BUFFER_USAGE_NONE
    }) | crate::gfx::BUFFER_USAGE_SHADER_DEVICE_ADDRESS | crate::gfx::BUFFER_USAGE_STORAGE_BUFFER
}

/// The usage of an index buffer, analogous to the vertex buffer's.
pub open spec fn spec_index_buffer_usage(use_for_ray_tracing: bool) -> u32 {
    crate::gfx::BUFFER_USAGE_INDEX_BUFFER | crate::gfx::BUFFER_USAGE_TRANSFER_DST | (
    if use_for_ray_tracing {
        crate::gfx::BUFFER_USAGE_ACCELERATION_STRUCTURE_BUILD_INPUT_READ_ONLY
    } else {
        crate::gfx::BUFFER_USAGE_NONE
    }) | crate::gfx::BUFFER_USAGE_SHADER_DEVICE_ADDRESS | crate::gfx::BUFFER_USAGE_STORAGE_BUFFER
}

/// The mesh pass's relation of one device primitive to its CPU source: the
/// vertex and index buffers hold exactly the packed arrays, sized to them,
/// with the feature-dependent usage; the counts and material are copied.
pub open spec fn spec_gpu_primitive_base_ok(
    gp: gpu::mesh::HalaPrimitive,
    cp: cpu::mesh::HalaPrimitive,
    use_for_ray_tracing: bool,
) -> bool {
    &&& gp.vertex_buffer.size == cp.vertices@.len() * 44
    &&& gp.vertex_buffer.usage == spec_vertex_buffer_usage(use_for_ray_tracing)
    &&& gp.vertex_buffer.data@ == crate::scene::vertex::spec_vertex_seq_bytes(cp.vertices@)
    &&& gp.index_buffer.size == cp.indices@.len() * 4
    &&& gp.index_buffer.usage == spec_index_buffer_usage(use_for_ray_tracing)
    &&& gp.index_buffer.data@ == crate::bytes::spec_u32_seq_bytes(cp.indices@)
    &&& gp.vertex_count == cp.vertices@.len()
    &&& gp.index_count == cp.indices@.len()
    &&& gp.material_index == cp.material_index
}

/// The mesh pass's relation to the scene: one device mesh per CPU mesh,
/// carrying its owning node's world transform, with every primitive's
/// buffers populated.
pub open spec fn spec_gpu_meshes_ok(
    s: cpu::HalaScene,
    meshes: Seq<gpu::mesh::HalaMesh>,
    use_for_ray_tracing: bool,
) -> bool {
    &&& meshes.len() == s.meshes@.len()
    &&& forall|m: int|
        0 <= m < meshes.len() ==> (#[trigger] meshes[m]).transform.e@ == spec_mesh_transform(
            s.nodes@,
            m as u32,
        ) && meshes[m].primitives@.len() == s.meshes@[m].primitives@.len()
    &&& forall|m: int, p: int|
        0 <= m < meshes.len() && 0 <= p < meshes[m].primitives@.len()
            ==> spec_gpu_primitive_base_ok(
            #[trigger] meshes[m].primitives@[p],
            s.meshes@[m].primitives@[p],
            use_for_ray_tracing,
        )
}

/// No primitive of the mesh pass carries meshlet data or an acceleration
/// structure yet; the feature passes add those afterwards.
pub open spec fn spec_gpu_primitives_bare(meshes: Seq<gpu::mesh::HalaMesh>) -> bool {
    forall|m: int, p: int|
        0 <= m < meshes.len() && 0 <= p < meshes[m].primitives@.len() ==> {
            let gp = #[trigger] meshes[m].primitives@[p];
            &&& gp.meshlet_count == 0
            &&& gp.meshlet_buffer is None
            &&& gp.meshlet_vertex_buffer is None
            &&& gp.meshlet_primitive_buffer is None
            &&& gp.btlas is None
        }
}

/// The mesh pass: one staging buffer sized to the largest single vertex or
/// index array, reused for every primitive; then the transform-assignment
/// walk over the nodes.
fn build_gpu_meshes(
    context: &mut crate::gfx::HalaContext,
    transfer_command_buffers: &crate::gfx::HalaCommandBufferSet,
    scene_in_cpu: &cpu::HalaScene,
    use_for_ray_tracing: bool,
) -> (r: Vec<gpu::mesh::HalaMesh>)
    requires
        spec_scene_fits(*scene_in_cpu),
    ensures
        spec_gpu_meshes_ok(*scene_in_cpu, r@, use_for_ray_tracing),
        spec_gpu_primitives_bare(r@),
{
    let mesh_count = scene_in_cpu.meshes.len();
    let mut mesh_staging_size: usize = 0;
    let mut m: usize = 0;
    while m < mesh_count
        invariant
            m <= mesh_count,
            mesh_count == scene_in_cpu.meshes@.len(),
            spec_scene_fits(*scene_in_cpu),
            mesh_staging_size as int == spec_mesh_max_bytes(scene_in_cpu.meshes@, m as int),
        decreases mesh_count - m,
    {
        let prim_count = scene_in_cpu.meshes[m].primitives.len();
        let mut prim_max: usize = 0;
        let mut p: usize = 0;
        while p < prim_count
            invariant
                p <= prim_count,
                m < mesh_count,
                mesh_count == scene_in_cpu.meshes@.len(),
                prim_count == scene_in_cpu.meshes@[m as int].primitives@.len(),
                spec_scene_fits(*scene_in_cpu),
                prim_max as int == spec_prim_max_bytes(
                    scene_in_cpu.meshes@[m as int].primitives@,
                    p as int,
                ),
            decreases prim_count - p,
        {
            let prim = &scene_in_cpu.meshes[m].primitives[p];
            let vb = prim.vertices.len() * 44;
            let ib = prim.indices.len() * 4;
            let cur = if vb > ib {
                vb
            } else {
                ib
            };
            if cur > prim_max {
                prim_max = cur;
            }
            p = p + 1;
        }
        if prim_max > mesh_staging_size {
            mesh_staging_size = prim_max;
        }
        m = m + 1;
    }
    let mesh_staging_buffer = crate::gfx::HalaBuffer::new(
        context,
        mesh_staging_size as u64,
        crate::gfx::BUFFER_USAGE_TRANSFER_SRC,
        crate::gfx::HalaMemoryLocation::CpuToGpu,
        "mesh_staging.buffer",
    );
    proof {
        lemma_mesh_max_bytes_bound(scene_in_cpu.meshes@, mesh_count as int);
    }

    let mut meshes: Vec<gpu::mesh::HalaMesh> = Vec::new();
    let mut mesh_index: usize = 0;
    while mesh_index < mesh_count
        invariant
            mesh_index <= mesh_count,
            mesh_count == scene_in_cpu.meshes@.len(),
            spec_scene_fits(*scene_in_cpu),
            mesh_staging_buffer.size == mesh_staging_size as u64,
            forall|mm: int, pp: int|
                0 <= mm < mesh_count && 0 <= pp < scene_in_cpu.meshes@[mm].primitives@.len() ==> {
                    let prim = #[trigger] scene_in_cpu.meshes@[mm].primitives@[pp];
                    prim.vertices@.len() * 44 <= mesh_staging_size && prim.indices@.len() * 4
                        <= mesh_staging_size
                },
            meshes@.len() == mesh_index,
            forall|mm: int|
                0 <= mm < mesh_index ==> (#[trigger] meshes@[mm]).transform.e@
                    == crate::math::spec_mat4_identity() && meshes@[mm].primitives@.len()
                    == scene_in_cpu.meshes@[mm].primitives@.len(),
            forall|mm: int, pp: int|
                0 <= mm < mesh_index && 0 <= pp < meshes@[mm].primitives@.len()
                    ==> spec_gpu_primitive_base_ok(
                    #[trigger] meshes@[mm].primitives@[pp],
                    scene_in_cpu.meshes@[mm].primitives@[pp],
                    use_for_ray_tracing,
                ),
            spec_gpu_primitives_bare(meshes@),
        decreases mesh_count - mesh_index,
    {
        let prim_count = scene_in_cpu.meshes[mesh_index].primitives.len();
        let mut primitives: Vec<gpu::mesh::HalaPrimitive> = Vec::new();
        let mut prim_index: usize = 0;
        while prim_index < prim_count
            invariant
                prim_index <= prim_count,
                mesh_index < mesh_count,
                mesh_count == scene_in_cpu.meshes@.len(),
                prim_count == scene_in_cpu.meshes@[mesh_index as int].primitives@.len(),
                spec_scene_fits(*scene_in_cpu),
                mesh_staging_buffer.size == mesh_staging_size as u64,
                forall|mm: int, pp: int|
                    0 <= mm < mesh_count && 0 <= pp < scene_in_cpu.meshes@[mm].primitives@.len()
                        ==> {
                        let prim = #[trigger] scene_in_cpu.meshes@[mm].primitives@[pp];
                        prim.vertices@.len() * 44 <= mesh_staging_size && prim.indices@.len() * 4
                            <= mesh_staging_size
                    },
                primitives@.len() == prim_index,
                forall|pp: int|
                    0 <= pp < prim_index ==> spec_gpu_primitive_base_ok(
                        #[trigger] primitives@[pp],
                        scene_in_cpu.meshes@[mesh_index as int].primitives@[pp],
                        use_for_ray_tracing,
                    ),
                forall|pp: int|
                    0 <= pp < prim_index ==> {
                        let gp = #[trigger] primitives@[pp];
                        &&& gp.meshlet_count == 0
                        &&& gp.meshlet_buffer is None
                        &&& gp.meshlet_vertex_buffer is None
                        &&& gp.meshlet_primitive_buffer is None
                        &&& gp.btlas is None
                    },
            decreases prim_count - prim_index,
        {
            let prim = &scene_in_cpu.meshes[mesh_index].primitives[prim_index];
            let vertex_usage = crate::gfx::BUFFER_USAGE_VERTEX_BUFFER
                | crate::gfx::BUFFER_USAGE_TRANSFER_DST | (if use_for_ray_tracing {
                crate::gfx::BUFFER_USAGE_ACCELERATION_STRUCTURE_BUILD_INPUT_READ_ONLY
            } else {
                crate::gfx::BUFFER_USAGE_NONE
            }) | crate::gfx::BUFFER_USAGE_SHADER_DEVICE_ADDRESS
                | crate::gfx::BUFFER_USAGE_STORAGE_BUFFER;
            let vertex_name = format_two_index_message(
                "mesh_",
                mesh_index,
                "_prim_",
                prim_index,
                "_vertex.buffer",
            );
            let vertex_bytes = crate::scene::vertex::vertex_seq_bytes(&prim.vertices);
            let mut vertex_buffer = crate::gfx::HalaBuffer::new(
                context,
                (prim.vertices.len() * 44) as u64,
                vertex_usage,
                crate::gfx::HalaMemoryLocation::GpuOnly,
                vertex_name.as_str(),
            );
            vertex_buffer.update_gpu_memory_with_buffer(
                &vertex_bytes,
                &mesh_staging_buffer,
                transfer_command_buffers,
            );

            let index_usage = crate::gfx::BUFFER_USAGE_INDEX_BUFFER
                | crate::gfx::BUFFER_USAGE_TRANSFER_DST | (if use_for_ray_tracing {
                crate::gfx::BUFFER_USAGE_ACCELERATION_STRUCTURE_BUILD_INPUT_READ_ONLY
            } else {
                crate::gfx::BUFFER_USAGE_NONE
            }) | crate::gfx::BUFFER_USAGE_SHADER_DEVICE_ADDRESS
                | crate::gfx::BUFFER_USAGE_STORAGE_BUFFER;
            let index_name = format_two_index_message(
                "mesh_",
                mesh_index,
                "_prim_",
                prim_index,
                "_index.buffer",
            );
            let mut index_bytes: Vec<u8> = Vec::new();
            crate::bytes::append_u32_seq_bytes(&mut index_bytes, &prim.indices);
            let mut index_buffer = crate::gfx::HalaBuffer::new(
                context,
                (prim.indices.len() * 4) as u64,
                index_usage,
                crate::gfx::HalaMemoryLocation::GpuOnly,
                index_name.as_str(),
            );
            index_buffer.update_gpu_memory_with_buffer(
                &index_bytes,
                &mesh_staging_buffer,
                transfer_command_buffers,
            );

            primitives.push(
                gpu::mesh::HalaPrimitive {
                    vertex_buffer,
                    index_buffer,
                    vertex_count: prim.vertices.len() as u32,
                    index_count: prim.indices.len() as u32,
                    material_index: prim.material_index,
                    meshlet_count: 0u32,
                    meshlet_buffer: None,
                    meshlet_vertex_buffer: None,
                    meshlet_primitive_buffer: None,
                    btlas: None,
                },
            );
            prim_index = prim_index + 1;
        }
        meshes.push(gpu::mesh::HalaMesh { transform: Mat4Bits::identity(), primitives });
        mesh_index = mesh_index + 1;
    }

    let node_count = scene_in_cpu.nodes.len();
    let mut node_index: usize = 0;
    proof {
        assert forall|mm: int| 0 <= mm < mesh_count implies (#[trigger] meshes@[mm]).transform.e@
            == match spec_last_mesh_node(scene_in_cpu.nodes@, mm as u32, 0int) {
            Some(ni) => scene_in_cpu.nodes@[ni].world_transform.e@,
            None => crate::math::spec_mat4_identity(),
        } by {}
    }
    while node_index < node_count
        invariant
            node_index <= node_count,
            node_count == scene_in_cpu.nodes@.len(),
            mesh_count == scene_in_cpu.meshes@.len(),
            spec_scene_fits(*scene_in_cpu),
            meshes@.len() == mesh_count,
            forall|mm: int|
                0 <= mm < mesh_count ==> (#[trigger] meshes@[mm]).transform.e@ == match
                    spec_last_mesh_node(scene_in_cpu.nodes@, mm as u32, node_index as int) {
                    Some(ni) => scene_in_cpu.nodes@[ni].world_transform.e@,
                    None => crate::math::spec_mat4_identity(),
                },
            forall|mm: int|
                0 <= mm < mesh_count ==> (#[trigger] meshes@[mm]).primitives@.len()
                    == scene_in_cpu.meshes@[mm].primitives@.len(),
            forall|mm: int, pp: int|
                0 <= mm < mesh_count && 0 <= pp < meshes@[mm].primitives@.len()
                    ==> spec_gpu_primitive_base_ok(
                    #[trigger] meshes@[mm].primitives@[pp],
                    scene_in_cpu.meshes@[mm].primitives@[pp],
                    use_for_ray_tracing,
                ),
            spec_gpu_primitives_bare(meshes@),
        decreases node_count - node_index,
    {
        let ghost meshes0 = meshes@;
        let node_mesh_index = scene_in_cpu.nodes[node_index].mesh_index;
        if node_mesh_index != HALA_INVALID_INDEX {
            let mi = node_mesh_index as usize;
            let world = scene_in_cpu.nodes[node_index].world_transform;
            meshes[mi].transform = world;
        }
        node_index = node_index + 1;
        proof {
            assert forall|mm: int| 0 <= mm < mesh_count implies (#[trigger] meshes@[mm]).transform.e@
                == match spec_last_mesh_node(scene_in_cpu.nodes@, mm as u32, node_index as int) {
                Some(ni) => scene_in_cpu.nodes@[ni].world_transform.e@,
                None => crate::math::spec_mat4_identity(),
            } by {
                if scene_in_cpu.nodes@[node_index - 1].mesh_index == mm as u32 {
                    assert(spec_last_mesh_node(scene_in_cpu.nodes@, mm as u32, node_index as int)
                        == Some(node_index - 1));
                } else {
                    assert(spec_last_mesh_node(scene_in_cpu.nodes@, mm as u32, node_index as int)
                        == spec_last_mesh_node(scene_in_cpu.nodes@, mm as u32, node_index - 1));
                    assert(meshes@[mm] == meshes0[mm]);
                }
            }
        }
    }
    meshes
}


/// The (node, primitive) pairs that become mesh instances, in
/// node-then-primitive order, over the first `k` nodes.
pub open spec fn spec_instance_pairs_prefix(s: cpu::HalaScene, k: int) -> Seq<(int, int)>
    decreases k,
{
    if k <= 0 {
        Seq::empty()
    } else if s.nodes@[k - 1].mesh_index != HALA_INVALID_INDEX {
        spec_instance_pairs_prefix(s, k - 1) + Seq::new(
            s.meshes@[s.nodes@[k - 1].mesh_index as int].primitives@.len(),
            |p: int| (k - 1, p),
        )
    } else {
        spec_instance_pairs_prefix(s, k - 1)
    }
}

/// All (node, primitive) pairs that become mesh instances.
pub open spec fn spec_instance_pairs(s: cpu::HalaScene) -> Seq<(int, int)> {
    spec_instance_pairs_prefix(s, s.nodes@.len() as int)
}

/// A node-prefix selects a prefix of the instance pairs.
pub proof fn lemma_instance_pairs_prefix_extends(s: cpu::HalaScene, k1: int, k2: int)
    requires
        0 <= k1 <= k2,
    ensures
        spec_instance_pairs_prefix(s, k1).len() <= spec_instance_pairs_prefix(s, k2).len(),
        spec_instance_pairs_prefix(s, k2).take(spec_instance_pairs_prefix(s, k1).len() as int)
            == spec_instance_pairs_prefix(s, k1),
    decreases k2 - k1,
{
    if k1 < k2 {
        lemma_instance_pairs_prefix_extends(s, k1, k2 - 1);
        let a = spec_instance_pairs_prefix(s, k2 - 1);
        let b = spec_instance_pairs_prefix(s, k1);
        if s.nodes@[k2 - 1].mesh_index != HALA_INVALID_INDEX {
            let blk = Seq::new(
                s.meshes@[s.nodes@[k2 - 1].mesh_index as int].primitives@.len(),
                |p: int| (k2 - 1, p),
            );
            assert((a + blk).take(b.len() as int) =~= a.take(b.len() as int));
        }
    } else {
        assert(spec_instance_pairs_prefix(s, k1).take(
            spec_instance_pairs_prefix(s, k1).len() as int,
        ) =~= spec_instance_pairs_prefix(s, k1));
    }
}

/// The row-major 3x4 transform the top-level build consumes: the rotation
/// rows of a column-major 4x4 matrix with the translation as last column.
pub open spec fn spec_transform_rows(w: Seq<u32>) -> Seq<u32> {
    seq![
        w[0], w[4], w[8], w[12],
        w[1], w[5], w[9], w[13],
        w[2], w[6], w[10], w[14],
    ]
}

/// The identity 3x4 transform of the light instance.
pub open spec fn spec_identity_rows() -> Seq<u32> {
    seq![
        crate::math::F32_ONE, crate::math::F32_ZERO, crate::math::F32_ZERO, crate::math::F32_ZERO,
        crate::math::F32_ZERO, crate::math::F32_ONE, crate::math::F32_ZERO, crate::math::F32_ZERO,
        crate::math::F32_ZERO, crate::math::F32_ZERO, crate::math::F32_ONE, crate::math::F32_ZERO,
    ]
}

/// The per-instance record of one (node, primitive) pair holds the node's
/// world transform, the primitive's material, and its buffers' device
/// addresses.
pub open spec fn spec_pair_mesh_data_matches(
    md: gpu::mesh::HalaMeshData,
    s: cpu::HalaScene,
    meshes: Seq<gpu::mesh::HalaMesh>,
    pair: (int, int),
) -> bool {
    let gp = meshes[s.nodes@[pair.0].mesh_index as int].primitives@[pair.1];
    &&& md.transform.e@ == s.nodes@[pair.0].world_transform.e@
    &&& md.material_index == s.meshes@[s.nodes@[pair.0].mesh_index as int].primitives@[
        pair.1
    ].material_index
    &&& md.vertices == gp.vertex_buffer.address
    &&& md.indices == gp.index_buffer.address
}

/// The relation of the built instance list and per-instance records to the
/// scene: one mesh instance per (node, primitive) pair in node-then-
/// primitive order, with `custom_index` equal to its position, full mask,
/// shader-binding-table record 0 and facing culling disabled, pointing at
/// the pair's bottom-level structure; then one final light instance with
/// identity transform, `custom_index` 0 and shader-binding-table record 1,
/// pointing at the light structure.
/// The conditions on the `k`-th mesh instance and its record.
pub open spec fn spec_rt_instance_entry_ok(
    s: cpu::HalaScene,
    meshes: Seq<gpu::mesh::HalaMesh>,
    insts: Seq<crate::gfx::HalaAccelerationStructureInstance>,
    mesh_data: Seq<gpu::mesh::HalaMeshData>,
    k: int,
) -> bool {
    let pair = spec_instance_pairs(s)[k];
    let gp = meshes[s.nodes@[pair.0].mesh_index as int].primitives@[pair.1];
    let inst = insts[k];
    &&& inst.transform@ == spec_transform_rows(s.nodes@[pair.0].world_transform.e@)
    &&& inst.custom_index == k
    &&& inst.mask == 0xff
    &&& inst.shader_binding_table_record_offset == 0
    &&& inst.shader_binding_table_flags
        == crate::gfx::GEOMETRY_INSTANCE_TRIANGLE_FACING_CULL_DISABLE
    &&& gp.btlas matches Some(b) && inst.acceleration_structure_device_address == b.address
    &&& spec_pair_mesh_data_matches(mesh_data[k], s, meshes, pair)
}

pub open spec fn spec_rt_instances_ok(
    s: cpu::HalaScene,
    meshes: Seq<gpu::mesh::HalaMesh>,
    light_btlas_address: u64,
    insts: Seq<crate::gfx::HalaAccelerationStructureInstance>,
    mesh_data: Seq<gpu::mesh::HalaMeshData>,
) -> bool {
    let pairs = spec_instance_pairs(s);
    &&& insts.len() == pairs.len() + 1
    &&& mesh_data.len() == pairs.len()
    &&& forall|k: int|
        0 <= k < pairs.len() ==> #[trigger] spec_rt_instance_entry_ok(s, meshes, insts, mesh_data, k)
    &&& ({
        let last = insts[pairs.len() as int];
        &&& last.transform@ == spec_identity_rows()
        &&& last.custom_index == 0
        &&& last.mask == 0xff
        &&& last.shader_binding_table_record_offset == 1
        &&& last.shader_binding_table_flags
            == crate::gfx::GEOMETRY_INSTANCE_TRIANGLE_FACING_CULL_DISABLE
        &&& last.acceleration_structure_device_address == light_btlas_address
    })
}


/// Build the top-level instance list and the per-instance mesh-data
/// records: one instance per (node, primitive) pair in node-then-primitive
/// order, each carrying its position as `custom_index` and routing to
/// shader-binding-table record 0, and one final light instance routing to
/// record 1.
#[verifier::rlimit(100)]
pub fn build_rt_instances(
    scene_in_cpu: &cpu::HalaScene,
    meshes: &Vec<gpu::mesh::HalaMesh>,
    light_btlas_address: u64,
) -> (r: (Vec<crate::gfx::HalaAccelerationStructureInstance>, Vec<gpu::mesh::HalaMeshData>))
    requires
        spec_scene_fits(*scene_in_cpu),
        meshes@.len() == scene_in_cpu.meshes@.len(),
        forall|m: int|
            0 <= m < meshes@.len() ==> (#[trigger] meshes@[m]).primitives@.len()
                == scene_in_cpu.meshes@[m].primitives@.len(),
        forall|m: int, p: int|
            0 <= m < meshes@.len() && 0 <= p < meshes@[m].primitives@.len() ==> (#[trigger]
            meshes@[m].primitives@[p]).btlas is Some,
        spec_instance_pairs(*scene_in_cpu).len() + 1 <= u32::MAX,
    ensures
        spec_rt_instances_ok(*scene_in_cpu, meshes@, light_btlas_address, r.0@, r.1@),
{
    let ghost pairs = spec_instance_pairs(*scene_in_cpu);
    let n = scene_in_cpu.nodes.len();
    let mut instances: Vec<crate::gfx::HalaAccelerationStructureInstance> = Vec::new();
    let mut primitives_data: Vec<gpu::mesh::HalaMeshData> = Vec::new();
    let mut node_index: usize = 0;
    while node_index < n
        invariant
            node_index <= n,
            n == scene_in_cpu.nodes@.len(),
            spec_scene_fits(*scene_in_cpu),
            meshes@.len() == scene_in_cpu.meshes@.len(),
            forall|m: int|
                0 <= m < meshes@.len() ==> (#[trigger] meshes@[m]).primitives@.len()
                    == scene_in_cpu.meshes@[m].primitives@.len(),
            forall|m: int, p: int|
                0 <= m < meshes@.len() && 0 <= p < meshes@[m].primitives@.len() ==> (#[trigger]
                meshes@[m].primitives@[p]).btlas is Some,
            pairs == spec_instance_pairs(*scene_in_cpu),
            pairs.len() + 1 <= u32::MAX,
            instances@.len() == spec_instance_pairs_prefix(*scene_in_cpu, node_index as int).len(),
            primitives_data@.len() == instances@.len(),
            forall|k: int|
                0 <= k < instances@.len() ==> {
                    let pair = spec_instance_pairs_prefix(*scene_in_cpu, node_index as int)[k];
                    let gp =
                        meshes@[scene_in_cpu.nodes@[pair.0].mesh_index as int].primitives@[pair.1];
                    let inst = #[trigger] instances@[k];
                    &&& inst.transform@ == spec_transform_rows(
                        scene_in_cpu.nodes@[pair.0].world_transform.e@,
                    )
                    &&& inst.custom_index == k
                    &&& inst.mask == 0xff
                    &&& inst.shader_binding_table_record_offset == 0
                    &&& inst.shader_binding_table_flags
                        == crate::gfx::GEOMETRY_INSTANCE_TRIANGLE_FACING_CULL_DISABLE
                    &&& gp.btlas matches Some(b) && inst.acceleration_structure_device_address
                        == b.address
                    &&& spec_pair_mesh_data_matches(primitives_data@[k], *scene_in_cpu, meshes@, pair)
                },
        decreases n - node_index,
    {
        let ghost base_seq = spec_instance_pairs_prefix(*scene_in_cpu, node_index as int);
        proof {
            lemma_instance_pairs_prefix_extends(
                *scene_in_cpu,
                node_index as int + 1,
                n as int,
            );
        }
        let node = &scene_in_cpu.nodes[node_index];
        if node.mesh_index != HALA_INVALID_INDEX {
            let mi = node.mesh_index as usize;
            let ghost blk = Seq::new(
                scene_in_cpu.meshes@[mi as int].primitives@.len(),
                |p: int| (node_index as int, p),
            );
            proof {
                assert(spec_instance_pairs_prefix(*scene_in_cpu, node_index as int + 1)
                    =~= base_seq + blk);
            }
            let world_transform = node.world_transform;
            let w = &world_transform.e;
            let transform: [u32; 12] = [
                w[0], w[4], w[8], w[12],
                w[1], w[5], w[9], w[13],
                w[2], w[6], w[10], w[14],
            ];
            proof {
                assert(transform@ =~= spec_transform_rows(node.world_transform.e@));
            }
            let prim_count = meshes[mi].primitives.len();
            proof {
                assert forall|k: int| 0 <= k < base_seq.len() implies (base_seq + blk)[k]
                    == base_seq[k] by {}
            }
            let mut prim_index: usize = 0;
            while prim_index < prim_count
                invariant
                    prim_index <= prim_count,
                    node_index < n,
                    n == scene_in_cpu.nodes@.len(),
                    spec_scene_fits(*scene_in_cpu),
                    meshes@.len() == scene_in_cpu.meshes@.len(),
                    forall|m: int|
                        0 <= m < meshes@.len() ==> (#[trigger] meshes@[m]).primitives@.len()
                            == scene_in_cpu.meshes@[m].primitives@.len(),
                    forall|m: int, p: int|
                        0 <= m < meshes@.len() && 0 <= p < meshes@[m].primitives@.len() ==> (
                        #[trigger] meshes@[m].primitives@[p]).btlas is Some,
                    pairs == spec_instance_pairs(*scene_in_cpu),
                    pairs.len() + 1 <= u32::MAX,
                    scene_in_cpu.nodes@[node_index as int].mesh_index != HALA_INVALID_INDEX,
                    mi == scene_in_cpu.nodes@[node_index as int].mesh_index as usize,
                    mi < meshes@.len(),
                    prim_count == meshes@[mi as int].primitives@.len(),
                    transform@ == spec_transform_rows(
                        scene_in_cpu.nodes@[node_index as int].world_transform.e@,
                    ),
                    world_transform.e@ == scene_in_cpu.nodes@[
                        node_index as int
                    ].world_transform.e@,
                    base_seq == spec_instance_pairs_prefix(*scene_in_cpu, node_index as int),
                    blk == Seq::new(
                        scene_in_cpu.meshes@[mi as int].primitives@.len(),
                        |p: int| (node_index as int, p),
                    ),
                    spec_instance_pairs_prefix(*scene_in_cpu, node_index as int + 1) == base_seq
                        + blk,
                    spec_instance_pairs_prefix(*scene_in_cpu, node_index as int + 1).len()
                        <= pairs.len(),
                    instances@.len() == base_seq.len() + prim_index,
                    primitives_data@.len() == instances@.len(),
                    forall|k: int|
                        0 <= k < instances@.len() ==> {
                            let pair = (base_seq + blk)[k];
                            let gp = meshes@[scene_in_cpu.nodes@[pair.0].mesh_index as int]
                                .primitives@[pair.1];
                            let inst = #[trigger] instances@[k];
                            &&& inst.transform@ == spec_transform_rows(
                                scene_in_cpu.nodes@[pair.0].world_transform.e@,
                            )
                            &&& inst.custom_index == k
                            &&& inst.mask == 0xff
                            &&& inst.shader_binding_table_record_offset == 0
                            &&& inst.shader_binding_table_flags
                                == crate::gfx::GEOMETRY_INSTANCE_TRIANGLE_FACING_CULL_DISABLE
                            &&& gp.btlas matches Some(b)
                                && inst.acceleration_structure_device_address == b.address
                            &&& spec_pair_mesh_data_matches(
                                primitives_data@[k],
                                *scene_in_cpu,
                                meshes@,
                                pair,
                            )
                        },
                decreases prim_count - prim_index,
            {
                let gp = &meshes[mi].primitives[prim_index];
                let btlas_address: u64 = match &gp.btlas {
                    Some(b) => b.address,
                    None => 0,
                };
                let custom_index = primitives_data.len() as u32;
                let as_instance = crate::gfx::HalaAccelerationStructureInstance {
                    transform,
                    custom_index,
                    mask: 0xff,
                    shader_binding_table_record_offset: 0,
                    shader_binding_table_flags:
                        crate::gfx::GEOMETRY_INSTANCE_TRIANGLE_FACING_CULL_DISABLE,
                    acceleration_structure_device_address: btlas_address,
                };
                let mesh_data = gpu::mesh::HalaMeshData {
                    transform: world_transform,
                    material_index: scene_in_cpu.meshes[mi].primitives[prim_index].material_index,
                    vertices: gp.vertex_buffer.get_device_address(),
                    indices: gp.index_buffer.get_device_address(),
                };
                instances.push(as_instance);
                primitives_data.push(mesh_data);
                prim_index = prim_index + 1;
                proof {
                    assert((base_seq + blk)[instances@.len() - 1] == (
                        node_index as int,
                        prim_index - 1,
                    ));
                    assert(spec_pair_mesh_data_matches(
                        primitives_data@[instances@.len() - 1],
                        *scene_in_cpu,
                        meshes@,
                        (base_seq + blk)[instances@.len() - 1],
                    ));
                }
            }
        } else {
            proof {
                assert(spec_instance_pairs_prefix(*scene_in_cpu, node_index as int + 1)
                    =~= base_seq);
            }
        }
        node_index = node_index + 1;
        proof {
            assert(instances@.len() == spec_instance_pairs_prefix(
                *scene_in_cpu,
                node_index as int,
            ).len());
        }
    }
    let light_as_instance = crate::gfx::HalaAccelerationStructureInstance {
        transform: [
            crate::math::F32_ONE, crate::math::F32_ZERO, crate::math::F32_ZERO,
            crate::math::F32_ZERO, crate::math::F32_ZERO, crate::math::F32_ONE,
            crate::math::F32_ZERO, crate::math::F32_ZERO, crate::math::F32_ZERO,
            crate::math::F32_ZERO, crate::math::F32_ONE, crate::math::F32_ZERO,
        ],
        custom_index: 0u32,
        mask: 0xff,
        shader_binding_table_record_offset: 1,
        shader_binding_table_flags: crate::gfx::GEOMETRY_INSTANCE_TRIANGLE_FACING_CULL_DISABLE,
        acceleration_structure_device_address: light_btlas_address,
    };
    let ghost pre_push = instances@;
    instances.push(light_as_instance);
    proof {
        assert(light_as_instance.transform@ =~= spec_identity_rows());
        assert(pairs == spec_instance_pairs_prefix(*scene_in_cpu, node_index as int));
        assert(instances@[pairs.len() as int] == light_as_instance);
        assert forall|k: int| 0 <= k < spec_instance_pairs(*scene_in_cpu).len()
            implies #[trigger] spec_rt_instance_entry_ok(
            *scene_in_cpu,
            meshes@,
            instances@,
            primitives_data@,
            k,
        ) by {
            assert(instances@[k] == pre_push[k]);
            assert(spec_instance_pairs(*scene_in_cpu)[k] == pairs[k]);
        }
        assert(instances@.len() == spec_instance_pairs(*scene_in_cpu).len() + 1);
        assert(primitives_data@.len() == spec_instance_pairs(*scene_in_cpu).len());
        let last = instances@[spec_instance_pairs(*scene_in_cpu).len() as int];
        assert(last.transform@ == spec_identity_rows());
        assert(last.custom_index == 0);
        assert(last.shader_binding_table_record_offset == 1);
        assert(last.acceleration_structure_device_address == light_btlas_address);
        assert(spec_rt_instances_ok(
            *scene_in_cpu,
            meshes@,
            light_btlas_address,
            instances@,
            primitives_data@,
        ));
    }
    (instances, primitives_data)
}


/// The bottom-level structure of one primitive: one opaque triangle
/// geometry over the primitive's vertex and index buffers, with the fixed
/// position format, the vertex record stride, 32-bit indices, and one
/// triangle range covering `index_count / 3` triangles.
pub open spec fn spec_prim_btlas_ok(
    b: crate::gfx::HalaAccelerationStructure,
    gp: gpu::mesh::HalaPrimitive,
) -> bool {
    &&& b.level == crate::gfx::HalaAccelerationStructureLevel::BottomLevel
    &&& b.geometries@.len() == 1
    &&& b.geometries@[0] == (crate::gfx::HalaAccelerationStructureGeometry {
        ty: crate::gfx::HalaGeometryType::Triangles,
        flags: crate::gfx::GEOMETRY_FLAG_OPAQUE,
        triangles_data: Some(
            crate::gfx::HalaAccelerationStructureGeometryTrianglesData {
                vertex_format: crate::gfx::HalaFormat::R32G32B32Sfloat,
                vertex_data_address: gp.vertex_buffer.address,
                vertex_stride: 44,
                vertex_count: gp.vertex_count,
                index_type: crate::gfx::HalaIndexType::Uint32,
                index_data_address: gp.index_buffer.address,
                transform_data_address: 0,
            },
        ),
        aabbs_data: None,
        instances_data: None,
    })
    &&& b.build_ranges@.len() == 1
    &&& b.build_ranges@[0]@ == seq![
        crate::gfx::HalaAccelerationStructureBuildRangeInfo {
            primitive_count: (gp.index_count / 3) as u32,
            primitive_offset: 0,
            first_vertex: 0,
            transform_offset: 0,
        },
    ]
    &&& b.max_primitive_counts@ == seq![(gp.index_count / 3) as u32]
}

/// The light bottom-level structure: one opaque box geometry over the light
/// bounding-box buffer, one range covering every packed light.
pub open spec fn spec_light_btlas_ok(
    b: crate::gfx::HalaAccelerationStructure,
    light_aabbs_address: u64,
    light_count: int,
) -> bool {
    &&& b.level == crate::gfx::HalaAccelerationStructureLevel::BottomLevel
    &&& b.geometries@.len() == 1
    &&& b.geometries@[0] == (crate::gfx::HalaAccelerationStructureGeometry {
        ty: crate::gfx::HalaGeometryType::Aabbs,
        flags: crate::gfx::GEOMETRY_FLAG_OPAQUE,
        triangles_data: None,
        aabbs_data: Some(
            crate::gfx::HalaAccelerationStructureGeometryAabbsData {
                data_address: light_aabbs_address,
                stride: 24,
            },
        ),
        instances_data: None,
    })
    &&& b.build_ranges@.len() == 1
    &&& b.build_ranges@[0]@ == seq![
        crate::gfx::HalaAccelerationStructureBuildRangeInfo {
            primitive_count: light_count as u32,
            primitive_offset: 0,
            first_vertex: 0,
            transform_offset: 0,
        },
    ]
    &&& b.max_primitive_counts@ == seq![light_count as u32]
}

/// The ray-tracing outputs of an uploaded scene: every primitive carries a
/// bottom-level structure over its buffers, the lights carry theirs, the
/// instance buffer packs the instance list of `spec_rt_instances_ok`, one
/// 88-byte record buffer per mesh instance packs its mesh data, and the
/// top-level structure instances them all.
pub open spec fn spec_rt_scene_ok(s: cpu::HalaScene, sg: gpu::HalaScene) -> bool {
    let pairs = spec_instance_pairs(s);
    &&& forall|m: int, p: int|
        0 <= m < sg.meshes@.len() && 0 <= p < sg.meshes@[m].primitives@.len() ==> {
            let gp = #[trigger] sg.meshes@[m].primitives@[p];
            gp.btlas matches Some(b) && spec_prim_btlas_ok(b, gp)
        }
    &&& sg.light_btlas matches Some(lb) && spec_light_btlas_ok(
        lb,
        sg.light_aabbs.address,
        sg.light_data@.len() as int,
    )
    &&& sg.instances matches Some(ib) && {
        let lb_address = sg.light_btlas->Some_0.address;
        &&& ib.size == 64 * (pairs.len() + 1)
        &&& ib.usage == crate::gfx::BUFFER_USAGE_SHADER_DEVICE_ADDRESS
            | crate::gfx::BUFFER_USAGE_ACCELERATION_STRUCTURE_BUILD_INPUT_READ_ONLY
            | crate::gfx::BUFFER_USAGE_TRANSFER_DST
        &&& sg.primitives@.len() == pairs.len()
        &&& exists|
            insts: Seq<crate::gfx::HalaAccelerationStructureInstance>,
            mds: Seq<gpu::mesh::HalaMeshData>,
        |
            {
                &&& #[trigger] spec_rt_instances_ok(s, sg.meshes@, lb_address, insts, mds)
                &&& ib.data@ == crate::gfx::spec_instance_seq_bytes(insts)
                &&& forall|k: int|
                    0 <= k < pairs.len() ==> {
                        let pb = #[trigger] sg.primitives@[k];
                        &&& pb.size == 88
                        &&& pb.usage == crate::gfx::BUFFER_USAGE_UNIFORM_BUFFER
                            | crate::gfx::BUFFER_USAGE_TRANSFER_DST
                        &&& pb.data@ == gpu::mesh::spec_mesh_data_bytes(mds[k])
                    }
            }
        &&& sg.tplas matches Some(t) && {
            &&& t.level == crate::gfx::HalaAccelerationStructureLevel::TopLevel
            &&& t.geometries@.len() == 1
            &&& t.geometries@[0] == (crate::gfx::HalaAccelerationStructureGeometry {
                ty: crate::gfx::HalaGeometryType::Instances,
                flags: crate::gfx::GEOMETRY_FLAG_OPAQUE,
                triangles_data: None,
                aabbs_data: None,
                instances_data: Some(
                    crate::gfx::HalaAccelerationStructureGeometryInstancesData {
                        array_of_pointers: false,
                        data_address: ib.address,
                    },
                ),
            })
            &&& t.build_ranges@.len() == 1
            &&& t.build_ranges@[0]@ == seq![
                crate::gfx::HalaAccelerationStructureBuildRangeInfo {
                    primitive_count: (pairs.len() + 1) as u32,
                    primitive_offset: 0,
                    first_vertex: 0,
                    transform_offset: 0,
                },
            ]
            &&& t.max_primitive_counts@ == seq![(pairs.len() + 1) as u32]
        }
    }
}


/// Every field of a primitive except its acceleration structure is the
/// same in both records.
pub open spec fn spec_prim_preserved_but_btlas(
    a: gpu::mesh::HalaPrimitive,
    b: gpu::mesh::HalaPrimitive,
) -> bool {
    &&& a.vertex_buffer == b.vertex_buffer
    &&& a.index_buffer == b.index_buffer
    &&& a.vertex_count == b.vertex_count
    &&& a.index_count == b.index_count
    &&& a.material_index == b.material_index
    &&& a.meshlet_count == b.meshlet_count
    &&& a.meshlet_buffer == b.meshlet_buffer
    &&& a.meshlet_vertex_buffer == b.meshlet_vertex_buffer
    &&& a.meshlet_primitive_buffer == b.meshlet_primitive_buffer
}

/// Build one bottom-level acceleration structure per mesh primitive, one
/// for all point-sampled lights, and the top-level structure instancing
/// them with correct per-instance transform and shader-binding-table
/// routing.
#[verifier::rlimit(100)]
fn additively_upload_for_ray_tracing(
    context: &mut crate::gfx::HalaContext,
    graphics_command_buffers: &crate::gfx::HalaCommandBufferSet,
    transfer_command_buffers: &crate::gfx::HalaCommandBufferSet,
    scene_in_cpu: &cpu::HalaScene,
    scene_in_gpu: &mut gpu::HalaScene,
) -> (r: Result<(), HalaRendererError>)
    requires
        spec_scene_fits(*scene_in_cpu),
        old(scene_in_gpu).meshes@.len() == scene_in_cpu.meshes@.len(),
        forall|m: int|
            0 <= m < old(scene_in_gpu).meshes@.len() ==> (#[trigger] old(
                scene_in_gpu).meshes@[m]).primitives@.len()
                == scene_in_cpu.meshes@[m].primitives@.len(),
        spec_instance_pairs(*scene_in_cpu).len() >= 1,
        spec_instance_pairs(*scene_in_cpu).len() + 1 <= u32::MAX,
        old(scene_in_gpu).light_data@.len() <= u32::MAX,
    ensures
        r is Ok,
        spec_rt_scene_ok(*scene_in_cpu, *final(scene_in_gpu)),
        final(scene_in_gpu).camera_view_matrices == old(scene_in_gpu).camera_view_matrices,
        final(scene_in_gpu).camera_proj_matrices == old(scene_in_gpu).camera_proj_matrices,
        final(scene_in_gpu).cameras == old(scene_in_gpu).cameras,
        final(scene_in_gpu).lights == old(scene_in_gpu).lights,
        final(scene_in_gpu).light_aabbs == old(scene_in_gpu).light_aabbs,
        final(scene_in_gpu).materials == old(scene_in_gpu).materials,
        final(scene_in_gpu).material_types == old(scene_in_gpu).material_types,
        final(scene_in_gpu).textures == old(scene_in_gpu).textures,
        final(scene_in_gpu).samplers == old(scene_in_gpu).samplers,
        final(scene_in_gpu).images == old(scene_in_gpu).images,
        final(scene_in_gpu).light_data == old(scene_in_gpu).light_data,
        final(scene_in_gpu).warnings == old(scene_in_gpu).warnings,
        final(scene_in_gpu).meshes@.len() == old(scene_in_gpu).meshes@.len(),
        forall|m: int|
            0 <= m < final(scene_in_gpu).meshes@.len() ==> (#[trigger] final(
                scene_in_gpu).meshes@[m]).transform == old(scene_in_gpu).meshes@[m].transform
                && final(scene_in_gpu).meshes@[m].primitives@.len() == old(
                scene_in_gpu).meshes@[m].primitives@.len(),
        forall|m: int, p: int|
            0 <= m < final(scene_in_gpu).meshes@.len() && 0 <= p < final(
                scene_in_gpu).meshes@[m].primitives@.len() ==> spec_prim_preserved_but_btlas(
                #[trigger] final(scene_in_gpu).meshes@[m].primitives@[p],
                old(scene_in_gpu).meshes@[m].primitives@[p],
            ),
{
    let mesh_count = scene_in_gpu.meshes.len();
    let mut mesh_index: usize = 0;
    while mesh_index < mesh_count
        invariant
            mesh_index <= mesh_count,
            mesh_count == old(scene_in_gpu).meshes@.len(),
            scene_in_gpu.meshes@.len() == mesh_count,
            scene_in_gpu.camera_view_matrices == old(scene_in_gpu).camera_view_matrices,
            scene_in_gpu.camera_proj_matrices == old(scene_in_gpu).camera_proj_matrices,
            scene_in_gpu.cameras == old(scene_in_gpu).cameras,
            scene_in_gpu.lights == old(scene_in_gpu).lights,
            scene_in_gpu.light_aabbs == old(scene_in_gpu).light_aabbs,
            scene_in_gpu.materials == old(scene_in_gpu).materials,
            scene_in_gpu.material_types == old(scene_in_gpu).material_types,
            scene_in_gpu.textures == old(scene_in_gpu).textures,
            scene_in_gpu.samplers == old(scene_in_gpu).samplers,
            scene_in_gpu.images == old(scene_in_gpu).images,
            scene_in_gpu.light_data == old(scene_in_gpu).light_data,
            scene_in_gpu.warnings == old(scene_in_gpu).warnings,
            scene_in_gpu.instances == old(scene_in_gpu).instances,
            scene_in_gpu.tplas == old(scene_in_gpu).tplas,
            scene_in_gpu.primitives == old(scene_in_gpu).primitives,
            scene_in_gpu.light_btlas == old(scene_in_gpu).light_btlas,
            forall|m: int|
                0 <= m < mesh_count ==> (#[trigger] scene_in_gpu.meshes@[m]).transform == old(
                    scene_in_gpu,
                ).meshes@[m].transform && scene_in_gpu.meshes@[m].primitives@.len() == old(
                    scene_in_gpu,
                ).meshes@[m].primitives@.len(),
            forall|m: int, p: int|
                0 <= m < mesh_count && 0 <= p < scene_in_gpu.meshes@[m].primitives@.len()
                    ==> spec_prim_preserved_but_btlas(
                    #[trigger] scene_in_gpu.meshes@[m].primitives@[p],
                    old(scene_in_gpu).meshes@[m].primitives@[p],
                ),
            forall|m: int, p: int|
                0 <= m < mesh_index && 0 <= p < scene_in_gpu.meshes@[m].primitives@.len() ==> {
                    let gp = #[trigger] scene_in_gpu.meshes@[m].primitives@[p];
                    gp.btlas matches Some(b) && spec_prim_btlas_ok(b, gp)
                },
        decreases mesh_count - mesh_index,
    {
        let prim_count = scene_in_gpu.meshes[mesh_index].primitives.len();
        let mut prim_index: usize = 0;
        while prim_index < prim_count
            invariant
                prim_index <= prim_count,
                mesh_index < mesh_count,
                mesh_count == old(scene_in_gpu).meshes@.len(),
                scene_in_gpu.meshes@.len() == mesh_count,
                prim_count == scene_in_gpu.meshes@[mesh_index as int].primitives@.len(),
                scene_in_gpu.camera_view_matrices == old(scene_in_gpu).camera_view_matrices,
                scene_in_gpu.camera_proj_matrices == old(scene_in_gpu).camera_proj_matrices,
                scene_in_gpu.cameras == old(scene_in_gpu).cameras,
                scene_in_gpu.lights == old(scene_in_gpu).lights,
                scene_in_gpu.light_aabbs == old(scene_in_gpu).light_aabbs,
                scene_in_gpu.materials == old(scene_in_gpu).materials,
                scene_in_gpu.material_types == old(scene_in_gpu).material_types,
                scene_in_gpu.textures == old(scene_in_gpu).textures,
                scene_in_gpu.samplers == old(scene_in_gpu).samplers,
                scene_in_gpu.images == old(scene_in_gpu).images,
                scene_in_gpu.light_data == old(scene_in_gpu).light_data,
                scene_in_gpu.warnings == old(scene_in_gpu).warnings,
                scene_in_gpu.instances == old(scene_in_gpu).instances,
                scene_in_gpu.tplas == old(scene_in_gpu).tplas,
                scene_in_gpu.primitives == old(scene_in_gpu).primitives,
                scene_in_gpu.light_btlas == old(scene_in_gpu).light_btlas,
                forall|m: int|
                    0 <= m < mesh_count ==> (#[trigger] scene_in_gpu.meshes@[m]).transform == old(
                        scene_in_gpu,
                    ).meshes@[m].transform && scene_in_gpu.meshes@[m].primitives@.len() == old(
                        scene_in_gpu,
                    ).meshes@[m].primitives@.len(),
                forall|m: int, p: int|
                    0 <= m < mesh_count && 0 <= p < scene_in_gpu.meshes@[m].primitives@.len()
                        ==> spec_prim_preserved_but_btlas(
                        #[trigger] scene_in_gpu.meshes@[m].primitives@[p],
                        old(scene_in_gpu).meshes@[m].primitives@[p],
                    ),
                forall|m: int, p: int|
                    0 <= m < mesh_index && 0 <= p < scene_in_gpu.meshes@[m].primitives@.len()
                        ==> {
                        let gp = #[trigger] scene_in_gpu.meshes@[m].primitives@[p];
                        gp.btlas matches Some(b) && spec_prim_btlas_ok(b, gp)
                    },
                forall|p: int|
                    0 <= p < prim_index ==> {
                        let gp = #[trigger] scene_in_gpu.meshes@[mesh_index as int].primitives@[p];
                        gp.btlas matches Some(b) && spec_prim_btlas_ok(b, gp)
                    },
            decreases prim_count - prim_index,
        {
            let vertex_address = scene_in_gpu.meshes[mesh_index].primitives[
                prim_index
            ].vertex_buffer.get_device_address();
            let index_address = scene_in_gpu.meshes[mesh_index].primitives[
                prim_index
            ].index_buffer.get_device_address();
            let vertex_count = scene_in_gpu.meshes[mesh_index].primitives[prim_index].vertex_count;
            let index_count = scene_in_gpu.meshes[mesh_index].primitives[prim_index].index_count;
            let geometry = crate::gfx::HalaAccelerationStructureGeometry {
                ty: crate::gfx::HalaGeometryType::Triangles,
                flags: crate::gfx::GEOMETRY_FLAG_OPAQUE,
                triangles_data: Some(
                    crate::gfx::HalaAccelerationStructureGeometryTrianglesData {
                        vertex_format: crate::gfx::HalaFormat::R32G32B32Sfloat,
                        vertex_data_address: vertex_address,
                        vertex_stride: 44,
                        vertex_count,
                        index_type: crate::gfx::HalaIndexType::Uint32,
                        index_data_address: index_address,
                        transform_data_address: 0,
                    },
                ),
                aabbs_data: None,
                instances_data: None,
            };
            let range = crate::gfx::HalaAccelerationStructureBuildRangeInfo {
                primitive_count: index_count / 3,
                primitive_offset: 0,
                first_vertex: 0,
                transform_offset: 0,
            };
            let name = format_two_index_message("mesh_", mesh_index, "_prim_", prim_index, ".btlas");
            let mut geometries: Vec<crate::gfx::HalaAccelerationStructureGeometry> = Vec::new();
            geometries.push(geometry);
            let mut range_list: Vec<crate::gfx::HalaAccelerationStructureBuildRangeInfo> =
                Vec::new();
            range_list.push(range);
            let mut ranges: Vec<Vec<crate::gfx::HalaAccelerationStructureBuildRangeInfo>> =
                Vec::new();
            ranges.push(range_list);
            let mut max_counts: Vec<u32> = Vec::new();
            max_counts.push(index_count / 3);
            let btlas = crate::gfx::HalaAccelerationStructure::new(
                context,
                graphics_command_buffers,
                crate::gfx::HalaAccelerationStructureLevel::BottomLevel,
                geometries,
                ranges,
                max_counts,
                name.as_str(),
            );
            proof {
                assert(btlas.build_ranges@[0]@ =~= seq![range]);
                assert(btlas.max_primitive_counts@ =~= seq![index_count / 3]);
            }
            scene_in_gpu.meshes[mesh_index].primitives[prim_index].btlas = Some(btlas);
            prim_index = prim_index + 1;
        }
        mesh_index = mesh_index + 1;
    }

    let light_aabbs_address = scene_in_gpu.light_aabbs.get_device_address();
    let light_count = scene_in_gpu.light_data.len() as u32;
    let light_geometry = crate::gfx::HalaAccelerationStructureGeometry {
        ty: crate::gfx::HalaGeometryType::Aabbs,
        flags: crate::gfx::GEOMETRY_FLAG_OPAQUE,
        triangles_data: None,
        aabbs_data: Some(
            crate::gfx::HalaAccelerationStructureGeometryAabbsData {
                data_address: light_aabbs_address,
                stride: 24,
            },
        ),
        instances_data: None,
    };
    let light_range = crate::gfx::HalaAccelerationStructureBuildRangeInfo {
        primitive_count: light_count,
        primitive_offset: 0,
        first_vertex: 0,
        transform_offset: 0,
    };
    let mut light_geometries: Vec<crate::gfx::HalaAccelerationStructureGeometry> = Vec::new();
    light_geometries.push(light_geometry);
    let mut light_range_list: Vec<crate::gfx::HalaAccelerationStructureBuildRangeInfo> =
        Vec::new();
    light_range_list.push(light_range);
    let mut light_ranges: Vec<Vec<crate::gfx::HalaAccelerationStructureBuildRangeInfo>> =
        Vec::new();
    light_ranges.push(light_range_list);
    let mut light_max_counts: Vec<u32> = Vec::new();
    light_max_counts.push(light_count);
    let light_btlas = crate::gfx::HalaAccelerationStructure::new(
        context,
        graphics_command_buffers,
        crate::gfx::HalaAccelerationStructureLevel::BottomLevel,
        light_geometries,
        light_ranges,
        light_max_counts,
        "light.btlas",
    );
    proof {
        assert(light_btlas.build_ranges@[0]@ =~= seq![light_range]);
        assert(light_btlas.max_primitive_counts@ =~= seq![light_count]);
    }
    let light_btlas_address = light_btlas.address;

    let (instances, primitives_data) = build_rt_instances(
        scene_in_cpu,
        &scene_in_gpu.meshes,
        light_btlas_address,
    );

    let primitives_buffer_size: u64 = 88;
    let instances_buffer_size: u64 = 64u64 * (instances.len() as u64);
    let mut instances_buffer = crate::gfx::HalaBuffer::new(
        context,
        instances_buffer_size,
        crate::gfx::BUFFER_USAGE_SHADER_DEVICE_ADDRESS
            | crate::gfx::BUFFER_USAGE_ACCELERATION_STRUCTURE_BUILD_INPUT_READ_ONLY
            | crate::gfx::BUFFER_USAGE_TRANSFER_DST,
        crate::gfx::HalaMemoryLocation::GpuOnly,
        "scene.instance_buffer",
    );
    let staging_buffer_size: u64 = if primitives_buffer_size > instances_buffer_size {
        primitives_buffer_size
    } else {
        instances_buffer_size
    };
    let staging_buffer = crate::gfx::HalaBuffer::new(
        context,
        staging_buffer_size,
        crate::gfx::BUFFER_USAGE_TRANSFER_SRC,
        crate::gfx::HalaMemoryLocation::CpuToGpu,
        "staging.buffer",
    );

    let mut primitive_buffers: Vec<crate::gfx::HalaBuffer> = Vec::new();
    let prim_total = primitives_data.len();
    let mut k: usize = 0;
    while k < prim_total
        invariant
            k <= prim_total,
            prim_total == primitives_data@.len(),
            primitives_buffer_size == 88,
            staging_buffer.size == staging_buffer_size,
            staging_buffer_size >= 88,
            primitive_buffers@.len() == k,
            forall|j: int|
                0 <= j < k ==> {
                    let pb = #[trigger] primitive_buffers@[j];
                    &&& pb.size == 88
                    &&& pb.usage == crate::gfx::BUFFER_USAGE_UNIFORM_BUFFER
                        | crate::gfx::BUFFER_USAGE_TRANSFER_DST
                    &&& pb.data@ == gpu::mesh::spec_mesh_data_bytes(primitives_data@[j])
                },
        decreases prim_total - k,
    {
        let mut primitives_buffer = crate::gfx::HalaBuffer::new(
            context,
            primitives_buffer_size,
            crate::gfx::BUFFER_USAGE_UNIFORM_BUFFER | crate::gfx::BUFFER_USAGE_TRANSFER_DST,
            crate::gfx::HalaMemoryLocation::GpuOnly,
            "scene.primitives_buffer",
        );
        let mut bytes: Vec<u8> = Vec::new();
        gpu::mesh::append_mesh_data_bytes(&mut bytes, &primitives_data[k]);
        primitives_buffer.update_gpu_memory_with_buffer(
            &bytes,
            &staging_buffer,
            transfer_command_buffers,
        );
        primitive_buffers.push(primitives_buffer);
        k = k + 1;
    }

    let instance_bytes = crate::gfx::instance_seq_bytes(&instances);
    instances_buffer.update_gpu_memory_with_buffer(
        &instance_bytes,
        &staging_buffer,
        transfer_command_buffers,
    );

    let tplas_geometry = crate::gfx::HalaAccelerationStructureGeometry {
        ty: crate::gfx::HalaGeometryType::Instances,
        flags: crate::gfx::GEOMETRY_FLAG_OPAQUE,
        triangles_data: None,
        aabbs_data: None,
        instances_data: Some(
            crate::gfx::HalaAccelerationStructureGeometryInstancesData {
                array_of_pointers: false,
                data_address: instances_buffer.get_device_address(),
            },
        ),
    };
    let tplas_range = crate::gfx::HalaAccelerationStructureBuildRangeInfo {
        primitive_count: instances.len() as u32,
        primitive_offset: 0,
        first_vertex: 0,
        transform_offset: 0,
    };
    let mut tplas_geometries: Vec<crate::gfx::HalaAccelerationStructureGeometry> = Vec::new();
    tplas_geometries.push(tplas_geometry);
    let mut tplas_range_list: Vec<crate::gfx::HalaAccelerationStructureBuildRangeInfo> =
        Vec::new();
    tplas_range_list.push(tplas_range);
    let mut tplas_ranges: Vec<Vec<crate::gfx::HalaAccelerationStructureBuildRangeInfo>> =
        Vec::new();
    tplas_ranges.push(tplas_range_list);
    let mut tplas_max_counts: Vec<u32> = Vec::new();
    tplas_max_counts.push(instances.len() as u32);
    let tplas = crate::gfx::HalaAccelerationStructure::new(
        context,
        graphics_command_buffers,
        crate::gfx::HalaAccelerationStructureLevel::TopLevel,
        tplas_geometries,
        tplas_ranges,
        tplas_max_counts,
        "scene.tplas",
    );
    proof {
        assert(tplas.build_ranges@[0]@ =~= seq![tplas_range]);
        assert(tplas.max_primitive_counts@ =~= seq![instances.len() as u32]);
    }

    let ghost ghost_insts = instances@;
    let ghost ghost_mds = primitives_data@;
    scene_in_gpu.instances = Some(instances_buffer);
    scene_in_gpu.tplas = Some(tplas);
    scene_in_gpu.primitives = primitive_buffers;
    scene_in_gpu.light_btlas = Some(light_btlas);
    proof {
        assert(spec_rt_instances_ok(
            *scene_in_cpu,
            scene_in_gpu.meshes@,
            light_btlas_address,
            ghost_insts,
            ghost_mds,
        ));
    }
    Ok(())
}


/// Every primitive is ready for the meshlet builder: its triangle count is
/// small enough, its vertex positions are finite and bounded (see
/// `spec_positions_in_range`), and no meshlet data has been derived yet.
pub open spec fn spec_prims_ready_for_meshlets(s: cpu::HalaScene) -> bool {
    forall|m: int, p: int|
        0 <= m < s.meshes@.len() && 0 <= p < s.meshes@[m].primitives@.len() ==> {
            let prim = #[trigger] s.meshes@[m].primitives@[p];
            &&& prim.indices@.len() <= 0x00FF_FFFF
            &&& crate::scene::meshlet::spec_positions_in_range(prim.vertices@)
            &&& prim.meshlets@.len() == 0
            &&& prim.meshlet_vertices@.len() == 0
            &&& prim.meshlet_primitives@.len() == 0
        }
}

/// The CPU scene after the meshlet pass: only the primitives' derived
/// meshlet arrays changed, each well-formed and covering its triangle list
/// exactly once.
pub open spec fn spec_cpu_meshlets_built(s: cpu::HalaScene, s0: cpu::HalaScene) -> bool {
    &&& s.nodes == s0.nodes
    &&& s.materials == s0.materials
    &&& s.texture2image_mapping == s0.texture2image_mapping
    &&& s.image2data_mapping == s0.image2data_mapping
    &&& s.image_data == s0.image_data
    &&& s.lights == s0.lights
    &&& s.cameras == s0.cameras
    &&& s.meshes@.len() == s0.meshes@.len()
    &&& forall|m: int|
        0 <= m < s.meshes@.len() ==> (#[trigger] s.meshes@[m]).primitives@.len()
            == s0.meshes@[m].primitives@.len()
    &&& forall|m: int, p: int|
        0 <= m < s.meshes@.len() && 0 <= p < s.meshes@[m].primitives@.len() ==> {
            let cp = #[trigger] s.meshes@[m].primitives@[p];
            let cp0 = s0.meshes@[m].primitives@[p];
            &&& cp.indices == cp0.indices
            &&& cp.vertices == cp0.vertices
            &&& cp.material_index == cp0.material_index
            &&& crate::scene::meshlet::spec_prim_meshlets_wf(&cp)
            &&& crate::scene::meshlet::spec_prim_meshlets_tile(&cp)
            &&& crate::scene::meshlet::spec_prim_meshlets_cover(&cp)
        }
}

/// The usage of every meshlet data buffer.
pub open spec fn spec_meshlet_buffer_usage() -> u32 {
    crate::gfx::BUFFER_USAGE_SHADER_DEVICE_ADDRESS | crate::gfx::BUFFER_USAGE_STORAGE_BUFFER
        | crate::gfx::BUFFER_USAGE_TRANSFER_DST
}

/// One device primitive's meshlet buffers hold exactly the packed forms of
/// its CPU primitive's derived meshlet arrays.
pub open spec fn spec_meshlet_buffers_ok(
    cp: cpu::mesh::HalaPrimitive,
    gp: gpu::mesh::HalaPrimitive,
) -> bool {
    &&& gp.meshlet_count == cp.meshlets@.len()
    &&& gp.meshlet_buffer matches Some(b) && b.size == 64 * cp.meshlets@.len() && b.usage
        == spec_meshlet_buffer_usage() && b.data@ == crate::scene::meshlet::spec_meshlet_seq_bytes(
        cp.meshlets@,
    )
    &&& gp.meshlet_vertex_buffer matches Some(b) && b.size == 4 * cp.meshlet_vertices@.len()
        && b.usage == spec_meshlet_buffer_usage() && b.data@ == crate::bytes::spec_u32_seq_bytes(
        cp.meshlet_vertices@,
    )
    &&& gp.meshlet_primitive_buffer matches Some(b) && b.size == 4 * cp.meshlet_primitives@.len()
        && b.usage == spec_meshlet_buffer_usage() && b.data@ == crate::bytes::spec_u32_seq_bytes(
        cp.meshlet_primitives@,
    )
}

/// Every field of a primitive except its meshlet data is the same in both
/// records.
pub open spec fn spec_prim_preserved_but_meshlets(
    a: gpu::mesh::HalaPrimitive,
    b: gpu::mesh::HalaPrimitive,
) -> bool {
    &&& a.vertex_buffer == b.vertex_buffer
    &&& a.index_buffer == b.index_buffer
    &&& a.vertex_count == b.vertex_count
    &&& a.index_count == b.index_count
    &&& a.material_index == b.material_index
    &&& a.btlas == b.btlas
}

/// Cluster every primitive into meshlets on the CPU side, then create and
/// fill the per-primitive meshlet record, vertex-remap and packed-triangle
/// buffers, uploaded through one staging buffer sized to the largest of the
/// three arrays across all primitives.
#[verifier::rlimit(100)]
fn additively_upload_for_mesh_shader(
    context: &mut crate::gfx::HalaContext,
    _graphics_command_buffers: &crate::gfx::HalaCommandBufferSet,
    transfer_command_buffers: &crate::gfx::HalaCommandBufferSet,
    scene_in_cpu: &mut cpu::HalaScene,
    scene_in_gpu: &mut gpu::HalaScene,
) -> (r: Result<(), HalaRendererError>)
    requires
        spec_scene_fits(*old(scene_in_cpu)),
        spec_prims_ready_for_meshlets(*old(scene_in_cpu)),
        old(scene_in_gpu).meshes@.len() == old(scene_in_cpu).meshes@.len(),
        forall|m: int|
            0 <= m < old(scene_in_gpu).meshes@.len() ==> (#[trigger] old(
                scene_in_gpu).meshes@[m]).primitives@.len()
                == old(scene_in_cpu).meshes@[m].primitives@.len(),
    ensures
        r is Ok,
        spec_cpu_meshlets_built(*final(scene_in_cpu), *old(scene_in_cpu)),
        final(scene_in_gpu).camera_view_matrices == old(scene_in_gpu).camera_view_matrices,
        final(scene_in_gpu).camera_proj_matrices == old(scene_in_gpu).camera_proj_matrices,
        final(scene_in_gpu).cameras == old(scene_in_gpu).cameras,
        final(scene_in_gpu).lights == old(scene_in_gpu).lights,
        final(scene_in_gpu).light_aabbs == old(scene_in_gpu).light_aabbs,
        final(scene_in_gpu).materials == old(scene_in_gpu).materials,
        final(scene_in_gpu).material_types == old(scene_in_gpu).material_types,
        final(scene_in_gpu).textures == old(scene_in_gpu).textures,
        final(scene_in_gpu).samplers == old(scene_in_gpu).samplers,
        final(scene_in_gpu).images == old(scene_in_gpu).images,
        final(scene_in_gpu).light_data == old(scene_in_gpu).light_data,
        final(scene_in_gpu).warnings == old(scene_in_gpu).warnings,
        final(scene_in_gpu).instances == old(scene_in_gpu).instances,
        final(scene_in_gpu).tplas == old(scene_in_gpu).tplas,
        final(scene_in_gpu).primitives == old(scene_in_gpu).primitives,
        final(scene_in_gpu).light_btlas == old(scene_in_gpu).light_btlas,
        final(scene_in_gpu).meshes@.len() == old(scene_in_gpu).meshes@.len(),
        forall|m: int|
            0 <= m < final(scene_in_gpu).meshes@.len() ==> (#[trigger] final(
                scene_in_gpu).meshes@[m]).transform == old(scene_in_gpu).meshes@[m].transform
                && final(scene_in_gpu).meshes@[m].primitives@.len() == old(
                scene_in_gpu).meshes@[m].primitives@.len(),
        forall|m: int, p: int|
            0 <= m < final(scene_in_gpu).meshes@.len() && 0 <= p < final(
                scene_in_gpu).meshes@[m].primitives@.len() ==> spec_prim_preserved_but_meshlets(
                #[trigger] final(scene_in_gpu).meshes@[m].primitives@[p],
                old(scene_in_gpu).meshes@[m].primitives@[p],
            ) && spec_meshlet_buffers_ok(
                final(scene_in_cpu).meshes@[m].primitives@[p],
                final(scene_in_gpu).meshes@[m].primitives@[p],
            ),
{
    let mesh_count = scene_in_cpu.meshes.len();
    let mut staging_buffer_size: usize = 0;
    let mut mesh_index: usize = 0;
    while mesh_index < mesh_count
        invariant
            mesh_index <= mesh_count,
            mesh_count == old(scene_in_cpu).meshes@.len(),
            scene_in_cpu.meshes@.len() == mesh_count,
            scene_in_cpu.nodes == old(scene_in_cpu).nodes,
            scene_in_cpu.materials == old(scene_in_cpu).materials,
            scene_in_cpu.texture2image_mapping == old(scene_in_cpu).texture2image_mapping,
            scene_in_cpu.image2data_mapping == old(scene_in_cpu).image2data_mapping,
            scene_in_cpu.image_data == old(scene_in_cpu).image_data,
            scene_in_cpu.lights == old(scene_in_cpu).lights,
            scene_in_cpu.cameras == old(scene_in_cpu).cameras,
            forall|m: int|
                0 <= m < mesh_count ==> (#[trigger] scene_in_cpu.meshes@[m]).primitives@.len()
                    == old(scene_in_cpu).meshes@[m].primitives@.len(),
            forall|m: int, p: int|
                0 <= m < mesh_count && 0 <= p < scene_in_cpu.meshes@[m].primitives@.len() ==> {
                    let cp = #[trigger] scene_in_cpu.meshes@[m].primitives@[p];
                    let cp0 = old(scene_in_cpu).meshes@[m].primitives@[p];
                    cp.indices == cp0.indices && cp.vertices == cp0.vertices && cp.material_index
                        == cp0.material_index
                },
            forall|m: int, p: int|
                (0 <= m < mesh_index && 0 <= p < scene_in_cpu.meshes@[m].primitives@.len()) ==> {
                    let cp = #[trigger] scene_in_cpu.meshes@[m].primitives@[p];
                    &&& crate::scene::meshlet::spec_prim_meshlets_wf(&cp)
                    &&& crate::scene::meshlet::spec_prim_meshlets_tile(&cp)
                    &&& crate::scene::meshlet::spec_prim_meshlets_cover(&cp)
                    &&& cp.meshlets@.len() <= 0x00FF_FFFF
                    &&& cp.meshlet_vertices@.len() <= 64 * cp.meshlets@.len()
                    &&& cp.meshlet_primitives@.len() <= cp.indices@.len()
                    &&& cp.indices@.len() <= 0x00FF_FFFF
                    &&& 64 * cp.meshlets@.len() <= staging_buffer_size
                    &&& 4 * cp.meshlet_vertices@.len() <= staging_buffer_size
                    &&& 4 * cp.meshlet_primitives@.len() <= staging_buffer_size
                },
            forall|m: int, p: int|
                (mesh_index <= m < mesh_count && 0 <= p
                    < scene_in_cpu.meshes@[m].primitives@.len()) ==> {
                    let cp = #[trigger] scene_in_cpu.meshes@[m].primitives@[p];
                    &&& cp.indices@.len() <= 0x00FF_FFFF
                    &&& cp.indices@.len() % 3 == 0
                    &&& (forall|k: int|
                        0 <= k < cp.indices@.len() ==> (#[trigger] cp.indices@[k])
                            < cp.vertices@.len())
                    &&& crate::scene::meshlet::spec_positions_in_range(cp.vertices@)
                    &&& cp.vertices@.len() * 44 <= usize::MAX
                    &&& cp.meshlets@.len() == 0
                    &&& cp.meshlet_vertices@.len() == 0
                    &&& cp.meshlet_primitives@.len() == 0
                },
        decreases mesh_count - mesh_index,
    {
        let prim_count = scene_in_cpu.meshes[mesh_index].primitives.len();
        let mut prim_index: usize = 0;
        while prim_index < prim_count
            invariant
                prim_index <= prim_count,
                mesh_index < mesh_count,
                mesh_count == old(scene_in_cpu).meshes@.len(),
                scene_in_cpu.meshes@.len() == mesh_count,
                prim_count == scene_in_cpu.meshes@[mesh_index as int].primitives@.len(),
                scene_in_cpu.nodes == old(scene_in_cpu).nodes,
                scene_in_cpu.materials == old(scene_in_cpu).materials,
                scene_in_cpu.texture2image_mapping == old(scene_in_cpu).texture2image_mapping,
                scene_in_cpu.image2data_mapping == old(scene_in_cpu).image2data_mapping,
                scene_in_cpu.image_data == old(scene_in_cpu).image_data,
                scene_in_cpu.lights == old(scene_in_cpu).lights,
                scene_in_cpu.cameras == old(scene_in_cpu).cameras,
                forall|m: int|
                    0 <= m < mesh_count ==> (#[trigger] scene_in_cpu.meshes@[m]).primitives@.len()
                        == old(scene_in_cpu).meshes@[m].primitives@.len(),
                forall|m: int, p: int|
                    0 <= m < mesh_count && 0 <= p < scene_in_cpu.meshes@[m].primitives@.len()
                        ==> {
                        let cp = #[trigger] scene_in_cpu.meshes@[m].primitives@[p];
                        let cp0 = old(scene_in_cpu).meshes@[m].primitives@[p];
                        cp.indices == cp0.indices && cp.vertices == cp0.vertices
                            && cp.material_index == cp0.material_index
                    },
                forall|m: int, p: int|
                    ((0 <= m < mesh_index && 0 <= p < scene_in_cpu.meshes@[m].primitives@.len())
                        || (m == mesh_index && 0 <= p < prim_index)) ==> {
                        let cp = #[trigger] scene_in_cpu.meshes@[m].primitives@[p];
                        &&& crate::scene::meshlet::spec_prim_meshlets_wf(&cp)
                        &&& crate::scene::meshlet::spec_prim_meshlets_tile(&cp)
                        &&& crate::scene::meshlet::spec_prim_meshlets_cover(&cp)
                        &&& cp.meshlets@.len() <= 0x00FF_FFFF
                        &&& cp.meshlet_vertices@.len() <= 64 * cp.meshlets@.len()
                        &&& cp.meshlet_primitives@.len() <= cp.indices@.len()
                        &&& cp.indices@.len() <= 0x00FF_FFFF
                        &&& 64 * cp.meshlets@.len() <= staging_buffer_size
                        &&& 4 * cp.meshlet_vertices@.len() <= staging_buffer_size
                        &&& 4 * cp.meshlet_primitives@.len() <= staging_buffer_size
                    },
                forall|m: int, p: int|
                    (((mesh_index as int) < m && m < mesh_count && 0 <= p
                        < scene_in_cpu.meshes@[m].primitives@.len()) || (m == mesh_index
                        && prim_index <= p < prim_count)) ==> {
                        let cp = #[trigger] scene_in_cpu.meshes@[m].primitives@[p];
                        &&& cp.indices@.len() <= 0x00FF_FFFF
                        &&& cp.indices@.len() % 3 == 0
                        &&& (forall|k: int|
                            0 <= k < cp.indices@.len() ==> (#[trigger] cp.indices@[k])
                                < cp.vertices@.len())
                        &&& crate::scene::meshlet::spec_positions_in_range(cp.vertices@)
                        &&& cp.vertices@.len() * 44 <= usize::MAX
                        &&& cp.meshlets@.len() == 0
                        &&& cp.meshlet_vertices@.len() == 0
                        &&& cp.meshlet_primitives@.len() == 0
                    },
            decreases prim_count - prim_index,
        {
            match crate::scene::meshlet::build_primitive_meshlets(
                &mut scene_in_cpu.meshes[mesh_index].primitives[prim_index],
            ) {
                Ok(_) => {},
                Err(err) => {
                    return Err(err);
                },
            }
            let meshlet_len = scene_in_cpu.meshes[mesh_index].primitives[prim_index].meshlets.len();
            let mv_len = scene_in_cpu.meshes[mesh_index].primitives[
                prim_index
            ].meshlet_vertices.len();
            let mp_len = scene_in_cpu.meshes[mesh_index].primitives[
                prim_index
            ].meshlet_primitives.len();
            let meshlet_buffer_size = 64 * meshlet_len;
            let meshlet_vertex_buffer_size = 4 * mv_len;
            let meshlet_primitive_buffer_size = 4 * mp_len;
            if meshlet_buffer_size > staging_buffer_size {
                staging_buffer_size = meshlet_buffer_size;
            }
            if meshlet_vertex_buffer_size > staging_buffer_size {
                staging_buffer_size = meshlet_vertex_buffer_size;
            }
            if meshlet_primitive_buffer_size > staging_buffer_size {
                staging_buffer_size = meshlet_primitive_buffer_size;
            }
            prim_index = prim_index + 1;
        }
        mesh_index = mesh_index + 1;
    }

    let staging_buffer = crate::gfx::HalaBuffer::new(
        context,
        staging_buffer_size as u64,
        crate::gfx::BUFFER_USAGE_TRANSFER_SRC,
        crate::gfx::HalaMemoryLocation::CpuToGpu,
        "staging.buffer",
    );

    let gpu_mesh_count = scene_in_gpu.meshes.len();
    let mut gm: usize = 0;
    while gm < gpu_mesh_count
        invariant
            gm <= gpu_mesh_count,
            gpu_mesh_count == old(scene_in_gpu).meshes@.len(),
            scene_in_gpu.meshes@.len() == gpu_mesh_count,
            scene_in_cpu.meshes@.len() == gpu_mesh_count,
            staging_buffer.size == staging_buffer_size as u64,
            forall|m: int|
                0 <= m < gpu_mesh_count ==> (#[trigger] scene_in_cpu.meshes@[m]).primitives@.len()
                    == old(scene_in_gpu).meshes@[m].primitives@.len(),
            forall|m: int, p: int|
                0 <= m < gpu_mesh_count && 0 <= p < scene_in_cpu.meshes@[m].primitives@.len()
                    ==> {
                    let cp = #[trigger] scene_in_cpu.meshes@[m].primitives@[p];
                    &&& cp.meshlets@.len() <= 0x00FF_FFFF
                    &&& 64 * cp.meshlets@.len() <= staging_buffer_size
                    &&& 4 * cp.meshlet_vertices@.len() <= staging_buffer_size
                    &&& 4 * cp.meshlet_primitives@.len() <= staging_buffer_size
                },
            scene_in_gpu.camera_view_matrices == old(scene_in_gpu).camera_view_matrices,
            scene_in_gpu.camera_proj_matrices == old(scene_in_gpu).camera_proj_matrices,
            scene_in_gpu.cameras == old(scene_in_gpu).cameras,
            scene_in_gpu.lights == old(scene_in_gpu).lights,
            scene_in_gpu.light_aabbs == old(scene_in_gpu).light_aabbs,
            scene_in_gpu.materials == old(scene_in_gpu).materials,
            scene_in_gpu.material_types == old(scene_in_gpu).material_types,
            scene_in_gpu.textures == old(scene_in_gpu).textures,
            scene_in_gpu.samplers == old(scene_in_gpu).samplers,
            scene_in_gpu.images == old(scene_in_gpu).images,
            scene_in_gpu.light_data == old(scene_in_gpu).light_data,
            scene_in_gpu.warnings == old(scene_in_gpu).warnings,
            scene_in_gpu.instances == old(scene_in_gpu).instances,
            scene_in_gpu.tplas == old(scene_in_gpu).tplas,
            scene_in_gpu.primitives == old(scene_in_gpu).primitives,
            scene_in_gpu.light_btlas == old(scene_in_gpu).light_btlas,
            forall|m: int|
                0 <= m < gpu_mesh_count ==> (#[trigger] scene_in_gpu.meshes@[m]).transform == old(
                    scene_in_gpu).meshes@[m].transform
                    && scene_in_gpu.meshes@[m].primitives@.len() == old(
                    scene_in_gpu).meshes@[m].primitives@.len(),
            forall|m: int, p: int|
                0 <= m < gpu_mesh_count && 0 <= p < scene_in_gpu.meshes@[m].primitives@.len()
                    ==> spec_prim_preserved_but_meshlets(
                    #[trigger] scene_in_gpu.meshes@[m].primitives@[p],
                    old(scene_in_gpu).meshes@[m].primitives@[p],
                ),
            forall|m: int, p: int|
                0 <= m < gm && 0 <= p < scene_in_gpu.meshes@[m].primitives@.len()
                    ==> spec_meshlet_buffers_ok(
                    scene_in_cpu.meshes@[m].primitives@[p],
                    #[trigger] scene_in_gpu.meshes@[m].primitives@[p],
                ),
        decreases gpu_mesh_count - gm,
    {
        let prim_count = scene_in_gpu.meshes[gm].primitives.len();
        let mut gp: usize = 0;
        while gp < prim_count
            invariant
                gp <= prim_count,
                gm < gpu_mesh_count,
                gpu_mesh_count == old(scene_in_gpu).meshes@.len(),
                scene_in_gpu.meshes@.len() == gpu_mesh_count,
                scene_in_cpu.meshes@.len() == gpu_mesh_count,
                prim_count == scene_in_gpu.meshes@[gm as int].primitives@.len(),
                staging_buffer.size == staging_buffer_size as u64,
                forall|m: int|
                    0 <= m < gpu_mesh_count ==> (#[trigger]
                    scene_in_cpu.meshes@[m]).primitives@.len() == old(
                        scene_in_gpu).meshes@[m].primitives@.len(),
                forall|m: int, p: int|
                    0 <= m < gpu_mesh_count && 0 <= p < scene_in_cpu.meshes@[m].primitives@.len()
                        ==> {
                        let cp = #[trigger] scene_in_cpu.meshes@[m].primitives@[p];
                        &&& cp.meshlets@.len() <= 0x00FF_FFFF
                        &&& 64 * cp.meshlets@.len() <= staging_buffer_size
                        &&& 4 * cp.meshlet_vertices@.len() <= staging_buffer_size
                        &&& 4 * cp.meshlet_primitives@.len() <= staging_buffer_size
                    },
                scene_in_gpu.camera_view_matrices == old(scene_in_gpu).camera_view_matrices,
                scene_in_gpu.camera_proj_matrices == old(scene_in_gpu).camera_proj_matrices,
                scene_in_gpu.cameras == old(scene_in_gpu).cameras,
                scene_in_gpu.lights == old(scene_in_gpu).lights,
                scene_in_gpu.light_aabbs == old(scene_in_gpu).light_aabbs,
                scene_in_gpu.materials == old(scene_in_gpu).materials,
                scene_in_gpu.material_types == old(scene_in_gpu).material_types,
                scene_in_gpu.textures == old(scene_in_gpu).textures,
                scene_in_gpu.samplers == old(scene_in_gpu).samplers,
                scene_in_gpu.images == old(scene_in_gpu).images,
                scene_in_gpu.light_data == old(scene_in_gpu).light_data,
                scene_in_gpu.warnings == old(scene_in_gpu).warnings,
                scene_in_gpu.instances == old(scene_in_gpu).instances,
                scene_in_gpu.tplas == old(scene_in_gpu).tplas,
                scene_in_gpu.primitives == old(scene_in_gpu).primitives,
                scene_in_gpu.light_btlas == old(scene_in_gpu).light_btlas,
                forall|m: int|
                    0 <= m < gpu_mesh_count ==> (#[trigger] scene_in_gpu.meshes@[m]).transform
                        == old(scene_in_gpu).meshes@[m].transform
                        && scene_in_gpu.meshes@[m].primitives@.len() == old(
                        scene_in_gpu).meshes@[m].primitives@.len(),
                forall|m: int, p: int|
                    0 <= m < gpu_mesh_count && 0 <= p < scene_in_gpu.meshes@[m].primitives@.len()
                        ==> spec_prim_preserved_but_meshlets(
                        #[trigger] scene_in_gpu.meshes@[m].primitives@[p],
                        old(scene_in_gpu).meshes@[m].primitives@[p],
                    ),
                forall|m: int, p: int|
                    ((0 <= m < gm && 0 <= p < scene_in_gpu.meshes@[m].primitives@.len()) || (m
                        == gm && 0 <= p < gp)) ==> spec_meshlet_buffers_ok(
                        scene_in_cpu.meshes@[m].primitives@[p],
                        #[trigger] scene_in_gpu.meshes@[m].primitives@[p],
                    ),
            decreases prim_count - gp,
        {
            let meshlet_len = scene_in_cpu.meshes[gm].primitives[gp].meshlets.len();
            scene_in_gpu.meshes[gm].primitives[gp].meshlet_count = meshlet_len as u32;

            let meshlet_name = format_two_index_message("meshlet_info_", gm, "_", gp, ".buffer");
            let mut meshlet_buffer = crate::gfx::HalaBuffer::new(
                context,
                (64 * meshlet_len) as u64,
                crate::gfx::BUFFER_USAGE_SHADER_DEVICE_ADDRESS
                    | crate::gfx::BUFFER_USAGE_STORAGE_BUFFER
                    | crate::gfx::BUFFER_USAGE_TRANSFER_DST,
                crate::gfx::HalaMemoryLocation::GpuOnly,
                meshlet_name.as_str(),
            );
            let meshlet_bytes = crate::scene::meshlet::meshlet_seq_bytes(
                &scene_in_cpu.meshes[gm].primitives[gp].meshlets,
            );
            meshlet_buffer.update_gpu_memory_with_buffer(
                &meshlet_bytes,
                &staging_buffer,
                transfer_command_buffers,
            );
            scene_in_gpu.meshes[gm].primitives[gp].meshlet_buffer = Some(meshlet_buffer);

            let mv_name = format_two_index_message("meshlet_vertex_", gm, "_", gp, ".buffer");
            let mv_len = scene_in_cpu.meshes[gm].primitives[gp].meshlet_vertices.len();
            let mut meshlet_vertex_buffer = crate::gfx::HalaBuffer::new(
                context,
                (4 * mv_len) as u64,
                crate::gfx::BUFFER_USAGE_SHADER_DEVICE_ADDRESS
                    | crate::gfx::BUFFER_USAGE_STORAGE_BUFFER
                    | crate::gfx::BUFFER_USAGE_TRANSFER_DST,
                crate::gfx::HalaMemoryLocation::GpuOnly,
                mv_name.as_str(),
            );
            let mut mv_bytes: Vec<u8> = Vec::new();
            crate::bytes::append_u32_seq_bytes(
                &mut mv_bytes,
                &scene_in_cpu.meshes[gm].primitives[gp].meshlet_vertices,
            );
            meshlet_vertex_buffer.update_gpu_memory_with_buffer(
                &mv_bytes,
                &staging_buffer,
                transfer_command_buffers,
            );
            scene_in_gpu.meshes[gm].primitives[gp].meshlet_vertex_buffer = Some(
                meshlet_vertex_buffer,
            );

            let mp_name = format_two_index_message("meshlet_primitive_", gm, "_", gp, ".buffer");
            let mp_len = scene_in_cpu.meshes[gm].primitives[gp].meshlet_primitives.len();
            let mut meshlet_primitive_buffer = crate::gfx::HalaBuffer::new(
                context,
                (4 * mp_len) as u64,
                crate::gfx::BUFFER_USAGE_SHADER_DEVICE_ADDRESS
                    | crate::gfx::BUFFER_USAGE_STORAGE_BUFFER
                    | crate::gfx::BUFFER_USAGE_TRANSFER_DST,
                crate::gfx::HalaMemoryLocation::GpuOnly,
                mp_name.as_str(),
            );
            let mut mp_bytes: Vec<u8> = Vec::new();
            crate::bytes::append_u32_seq_bytes(
                &mut mp_bytes,
                &scene_in_cpu.meshes[gm].primitives[gp].meshlet_primitives,
            );
            meshlet_primitive_buffer.update_gpu_memory_with_buffer(
                &mp_bytes,
                &staging_buffer,
                transfer_command_buffers,
            );
            scene_in_gpu.meshes[gm].primitives[gp].meshlet_primitive_buffer = Some(
                meshlet_primitive_buffer,
            );
            gp = gp + 1;
        }
        gm = gm + 1;
    }
    Ok(())
}


/// Two scenes with the same nodes and the same per-mesh primitive counts
/// select the same instance pairs.
pub proof fn lemma_instance_pairs_equal(s1: cpu::HalaScene, s2: cpu::HalaScene, k: int)
    requires
        s1.nodes == s2.nodes,
        s1.meshes@.len() == s2.meshes@.len(),
        forall|m: int|
            0 <= m < s1.meshes@.len() ==> (#[trigger] s1.meshes@[m]).primitives@.len()
                == s2.meshes@[m].primitives@.len(),
        k <= s1.nodes@.len(),
        spec_scene_fits(s1),
    ensures
        spec_instance_pairs_prefix(s1, k) == spec_instance_pairs_prefix(s2, k),
    decreases k,
{
    if k > 0 {
        lemma_instance_pairs_equal(s1, s2, k - 1);
        if s1.nodes@[k - 1].mesh_index != HALA_INVALID_INDEX {
            assert(Seq::new(
                s1.meshes@[s1.nodes@[k - 1].mesh_index as int].primitives@.len(),
                |p: int| (k - 1, p),
            ) =~= Seq::new(
                s2.meshes@[s2.nodes@[k - 1].mesh_index as int].primitives@.len(),
                |p: int| (k - 1, p),
            ));
        }
    }
}

/// Upload the scene to the GPU from the CPU.
pub struct HalaSceneGPUUploader;

impl HalaSceneGPUUploader {
    /// Upload the whole CPU scene to the GPU: cameras, lights, materials,
    /// textures, images and meshes in one fixed pass, then — per feature
    /// flag — the meshlet data for mesh shading and the acceleration
    /// structures for ray tracing.
    ///
    /// A camera or light count beyond the fixed maximum is truncated with a
    /// warning recorded in the returned scene; a camera without an owning
    /// node or a texture without an image payload fails the upload.
    #[verifier::rlimit(100)]
    pub fn upload(
        context: &mut crate::gfx::HalaContext,
        graphics_command_buffers: &crate::gfx::HalaCommandBufferSet,
        transfer_command_buffers: &crate::gfx::HalaCommandBufferSet,
        scene_in_cpu: &mut cpu::HalaScene,
        use_for_mesh_shader: bool,
        use_for_ray_tracing: bool,
    ) -> (r: Result<gpu::HalaScene, HalaRendererError>)
        requires
            spec_scene_fits(*old(scene_in_cpu)),
            use_for_mesh_shader ==> spec_prims_ready_for_meshlets(*old(scene_in_cpu)),
            use_for_ray_tracing ==> spec_instance_pairs(*old(scene_in_cpu)).len() >= 1
                && spec_instance_pairs(*old(scene_in_cpu)).len() + 1 <= u32::MAX,
        ensures
            r is Ok <==> (spec_cameras_have_nodes(*old(scene_in_cpu)) && spec_texture_lookups_ok(
                *old(scene_in_cpu),
            )),
            r is Err ==> *final(scene_in_cpu) == *old(scene_in_cpu),
            r matches Ok(sg) ==> {
                let s = *old(scene_in_cpu);
                &&& if use_for_mesh_shader {
                    spec_cpu_meshlets_built(*final(scene_in_cpu), s)
                } else {
                    *final(scene_in_cpu) == s
                }
                &&& sg.warnings@.len() == (if s.cameras@.len() > MAX_CAMERA_COUNT {
                    1int
                } else {
                    0int
                }) + (if s.lights@.len() > MAX_LIGHT_COUNT {
                    1int
                } else {
                    0int
                })
                &&& sg.camera_view_matrices@.len() == spec_packed_camera_count(s)
                &&& sg.camera_proj_matrices@.len() == spec_packed_camera_count(s)
                &&& forall|i: int|
                    0 <= i < spec_packed_camera_count(s) ==> {
                        &&& (#[trigger] spec_first_camera_node(s.nodes@, i as u32))
                            matches Some(ni)
                        &&& sg.camera_view_matrices@[i].e@ == spec_mat4_inverse(
                            s.nodes@[ni].world_transform.e@,
                        )
                        &&& sg.camera_proj_matrices@[i] == spec_proj_matrix(s.cameras@[i])
                    }
                &&& sg.cameras.size == 640
                &&& sg.cameras.usage == crate::gfx::BUFFER_USAGE_UNIFORM_BUFFER
                    | crate::gfx::BUFFER_USAGE_TRANSFER_DST
                &&& exists|cams: Seq<gpu::HalaCamera>|
                    {
                        &&& cams.len() == spec_packed_camera_count(s)
                        &&& (forall|i: int|
                            0 <= i < spec_packed_camera_count(s) ==> {
                                &&& (#[trigger] spec_first_camera_node(s.nodes@, i as u32))
                                    matches Some(ni)
                                &&& spec_camera_record_matches(cams[i], s.nodes@[ni], s.cameras@[i])
                            })
                        &&& sg.cameras.data@ == #[trigger] gpu::camera::spec_camera_seq_bytes(cams)
                    }
                &&& sg.lights.size == 2560
                &&& sg.lights.usage == crate::gfx::BUFFER_USAGE_UNIFORM_BUFFER
                    | crate::gfx::BUFFER_USAGE_TRANSFER_DST
                &&& sg.lights.data@ == gpu::light::spec_light_seq_bytes(sg.light_data@)
                &&& sg.light_aabbs.size == 768
                &&& sg.light_aabbs.usage == crate::gfx::BUFFER_USAGE_STORAGE_BUFFER
                    | crate::gfx::BUFFER_USAGE_TRANSFER_DST
                    | crate::gfx::BUFFER_USAGE_SHADER_DEVICE_ADDRESS | (if use_for_ray_tracing {
                    crate::gfx::BUFFER_USAGE_ACCELERATION_STRUCTURE_BUILD_INPUT_READ_ONLY
                } else {
                    crate::gfx::BUFFER_USAGE_NONE
                })
                &&& exists|aabbs: Seq<gpu::light::HalaAABB>|
                    {
                        &&& #[trigger] spec_light_arrays_ok(s, sg.light_data@, aabbs)
                        &&& sg.light_aabbs.data@ == gpu::light::spec_aabb_seq_bytes(aabbs)
                    }
                &&& spec_material_buffers_ok(s, sg.materials@, sg.material_types@)
                &&& spec_textures_ok(s, sg.textures@)
                &&& spec_samplers_ok(sg.samplers@, s.texture2image_mapping@.len() as int)
                &&& spec_images_ok(s, sg.images@)
                &&& spec_gpu_meshes_ok(s, sg.meshes@, use_for_ray_tracing)
                &&& if use_for_mesh_shader {
                    forall|m: int, p: int|
                        0 <= m < sg.meshes@.len() && 0 <= p < sg.meshes@[m].primitives@.len()
                            ==> spec_meshlet_buffers_ok(
                            final(scene_in_cpu).meshes@[m].primitives@[p],
                            #[trigger] sg.meshes@[m].primitives@[p],
                        )
                } else {
                    forall|m: int, p: int|
                        0 <= m < sg.meshes@.len() && 0 <= p < sg.meshes@[m].primitives@.len()
                            ==> {
                            let gp = #[trigger] sg.meshes@[m].primitives@[p];
                            &&& gp.meshlet_count == 0
                            &&& gp.meshlet_buffer is None
                            &&& gp.meshlet_vertex_buffer is None
                            &&& gp.meshlet_primitive_buffer is None
                        }
                }
                &&& if use_for_ray_tracing {
                    spec_rt_scene_ok(*final(scene_in_cpu), sg)
                } else {
                    &&& (forall|m: int, p: int|
                        0 <= m < sg.meshes@.len() && 0 <= p < sg.meshes@[m].primitives@.len()
                            ==> (#[trigger] sg.meshes@[m].primitives@[p]).btlas is None)
                    &&& sg.instances is None
                    &&& sg.tplas is None
                    &&& sg.primitives@.len() == 0
                    &&& sg.light_btlas is None
                }
            },
    {
        let camera_buffer_size: u64 = (gpu::camera::CAMERA_BYTE_SIZE * MAX_CAMERA_COUNT) as u64;
        let light_buffer_size: u64 = (gpu::light::LIGHT_BYTE_SIZE * MAX_LIGHT_COUNT) as u64;
        let light_aabb_buffer_size: u64 = (gpu::light::AABB_BYTE_SIZE * MAX_LIGHT_COUNT) as u64;
        let material_buffer_size: u64 = gpu::material::MATERIAL_BYTE_SIZE as u64;
        let max_of_camera_light = if camera_buffer_size > light_buffer_size {
            camera_buffer_size
        } else {
            light_buffer_size
        };
        let max_buffer_size = if max_of_camera_light > material_buffer_size {
            max_of_camera_light
        } else {
            material_buffer_size
        };

        let staging_buffer = crate::gfx::HalaBuffer::new(
            context,
            max_buffer_size,
            crate::gfx::BUFFER_USAGE_TRANSFER_SRC,
            crate::gfx::HalaMemoryLocation::CpuToGpu,
            "staging.buffer",
        );

        let mut camera_buffer = crate::gfx::HalaBuffer::new(
            context,
            camera_buffer_size,
            crate::gfx::BUFFER_USAGE_UNIFORM_BUFFER | crate::gfx::BUFFER_USAGE_TRANSFER_DST,
            crate::gfx::HalaMemoryLocation::GpuOnly,
            "cameras.buffer",
        );

        let mut warnings: Vec<String> = Vec::new();
        if scene_in_cpu.cameras.len() > MAX_CAMERA_COUNT {
            warnings.push(
                format_two_index_message(
                    "The camera count ",
                    scene_in_cpu.cameras.len(),
                    " exceeds the maximum camera count ",
                    MAX_CAMERA_COUNT,
                    ". Only the first cameras will be uploaded to the GPU.",
                ),
            );
        }
        let (camera_view_matrices, camera_proj_matrices, cameras) = match build_camera_arrays(
            scene_in_cpu,
        ) {
            Ok(t) => t,
            Err(err) => {
                return Err(err);
            },
        };
        let camera_bytes = gpu::camera::camera_seq_bytes(&cameras);
        camera_buffer.update_gpu_memory_with_buffer(
            &camera_bytes,
            &staging_buffer,
            transfer_command_buffers,
        );

        let mut light_buffer = crate::gfx::HalaBuffer::new(
            context,
            light_buffer_size,
            crate::gfx::BUFFER_USAGE_UNIFORM_BUFFER | crate::gfx::BUFFER_USAGE_TRANSFER_DST,
            crate::gfx::HalaMemoryLocation::GpuOnly,
            "lights.buffer",
        );
        let mut light_aabb_buffer = crate::gfx::HalaBuffer::new(
            context,
            light_aabb_buffer_size,
            crate::gfx::BUFFER_USAGE_STORAGE_BUFFER | crate::gfx::BUFFER_USAGE_TRANSFER_DST
                | crate::gfx::BUFFER_USAGE_SHADER_DEVICE_ADDRESS | (if use_for_ray_tracing {
                crate::gfx::BUFFER_USAGE_ACCELERATION_STRUCTURE_BUILD_INPUT_READ_ONLY
            } else {
                crate::gfx::BUFFER_USAGE_NONE
            }),
            crate::gfx::HalaMemoryLocation::GpuOnly,
            "light_aabbs.buffer",
        );
        if scene_in_cpu.lights.len() > MAX_LIGHT_COUNT {
            warnings.push(
                format_two_index_message(
                    "The light count ",
                    scene_in_cpu.lights.len(),
                    " exceeds the maximum light count ",
                    MAX_LIGHT_COUNT,
                    ". Only the first lights will be uploaded to the GPU.",
                ),
            );
        }
        let (lights, light_aabbs) = build_light_arrays(scene_in_cpu);
        let light_bytes = gpu::light::light_seq_bytes(&lights);
        light_buffer.update_gpu_memory_with_buffer(
            &light_bytes,
            &staging_buffer,
            transfer_command_buffers,
        );
        let aabb_bytes = gpu::light::aabb_seq_bytes(&light_aabbs);
        light_aabb_buffer.update_gpu_memory_with_buffer(
            &aabb_bytes,
            &staging_buffer,
            transfer_command_buffers,
        );

        let (material_buffers, material_types) = build_material_buffers(
            context,
            transfer_command_buffers,
            scene_in_cpu,
            &staging_buffer,
        );

        let (textures, samplers) = match build_texture_tables(scene_in_cpu) {
            Ok(t) => t,
            Err(err) => {
                return Err(err);
            },
        };

        let images = build_images(
            context,
            graphics_command_buffers,
            scene_in_cpu,
            use_for_mesh_shader,
            use_for_ray_tracing,
        );

        let meshes = build_gpu_meshes(
            context,
            transfer_command_buffers,
            scene_in_cpu,
            use_for_ray_tracing,
        );

        let ghost aabbs_ghost = light_aabbs@;
        let ghost cams_ghost = cameras@;

        let mut scene_in_gpu = gpu::HalaScene {
            camera_view_matrices,
            camera_proj_matrices,
            cameras: camera_buffer,
            lights: light_buffer,
            light_aabbs: light_aabb_buffer,
            materials: material_buffers,
            material_types,
            textures,
            samplers,
            images,
            meshes,
            instances: None,
            tplas: None,
            primitives: Vec::new(),
            light_btlas: None,
            light_data: lights,
            warnings,
        };

        if use_for_mesh_shader {
            match additively_upload_for_mesh_shader(
                context,
                graphics_command_buffers,
                transfer_command_buffers,
                scene_in_cpu,
                &mut scene_in_gpu,
            ) {
                Ok(_) => {},
                Err(err) => {
                    return Err(err);
                },
            }
        }

        if use_for_ray_tracing {
            proof {
                if use_for_mesh_shader {
                    assert(spec_scene_fits(*scene_in_cpu));
                    lemma_instance_pairs_equal(
                        *old(scene_in_cpu),
                        *scene_in_cpu,
                        old(scene_in_cpu).nodes@.len() as int,
                    );
                }
            }
            match additively_upload_for_ray_tracing(
                context,
                graphics_command_buffers,
                transfer_command_buffers,
                scene_in_cpu,
                &mut scene_in_gpu,
            ) {
                Ok(_) => {},
                Err(err) => {
                    return Err(err);
                },
            }
        }

        proof {
            let s = *old(scene_in_cpu);
            assert forall|i: int| 0 <= i < spec_packed_camera_count(s) implies {
                &&& (#[trigger] spec_first_camera_node(s.nodes@, i as u32)) matches Some(ni)
                &&& scene_in_gpu.camera_view_matrices@[i].e@ == spec_mat4_inverse(
                    s.nodes@[ni].world_transform.e@,
                )
                &&& scene_in_gpu.camera_proj_matrices@[i] == spec_proj_matrix(s.cameras@[i])
            } by {
                assert(spec_first_camera_node(s.nodes@, i as u32) is Some);
            }
            assert(cams_ghost.len() == spec_packed_camera_count(s));
            assert(scene_in_gpu.cameras.data@ == gpu::camera::spec_camera_seq_bytes(cams_ghost));
            assert(spec_light_arrays_ok(s, scene_in_gpu.light_data@, aabbs_ghost));
            assert(scene_in_gpu.light_aabbs.data@ == gpu::light::spec_aabb_seq_bytes(aabbs_ghost));
            assert(scene_in_gpu.lights.data@ == gpu::light::spec_light_seq_bytes(
                scene_in_gpu.light_data@,
            ));
            if use_for_ray_tracing {
                lemma_instance_pairs_equal(
                    *old(scene_in_cpu),
                    *scene_in_cpu,
                    old(scene_in_cpu).nodes@.len() as int,
                );
            }
        }
        Ok(scene_in_gpu)
    }
}

} // verus!
