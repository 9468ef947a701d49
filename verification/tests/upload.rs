//! End-to-end tests of the scene uploader: capacity truncation, instance
//! ordering, the point-light scenario, and meshlet coverage.

use hala_renderer::gfx::{HalaCommandBufferSet, HalaCommandBufferType, HalaContext};
use hala_renderer::math::Mat4Bits;
use hala_renderer::scene::cpu::camera::{HalaCamera, HalaPerspectiveCamera};
use hala_renderer::scene::cpu::light::{HalaLight, HalaLightType};
use hala_renderer::scene::cpu::material::{HalaMaterial, HalaMaterialType, HalaMedium,
    HalaMediumType};
use hala_renderer::scene::cpu::mesh::{HalaMesh, HalaPrimitive};
use hala_renderer::scene::cpu::node::{HalaNode, HALA_INVALID_INDEX};
use hala_renderer::scene::cpu::HalaScene;
use hala_renderer::scene::meshlet::build_primitive_meshlets;
use hala_renderer::scene::vertex::HalaVertex;
use hala_renderer::HalaSceneGPUUploader;

fn b(x: f32) -> u32 {
    x.to_bits()
}

fn mat_bits(m: glam::Mat4) -> Mat4Bits {
    let a = m.to_cols_array();
    let mut e = [0u32; 16];
    for i in 0..16 {
        e[i] = a[i].to_bits();
    }
    Mat4Bits { e }
}

fn node_at(translation: glam::Vec3) -> HalaNode {
    let m = glam::Mat4::from_translation(translation);
    let mut node = HalaNode::default();
    node.local_transform = mat_bits(m);
    node.world_transform = mat_bits(m);
    node
}

fn unit_triangle() -> HalaPrimitive {
    let v = |x: f32, y: f32, z: f32| HalaVertex {
        position: [b(x), b(y), b(z)],
        normal: [b(0.0), b(0.0), b(1.0)],
        tangent: [b(1.0), b(0.0), b(0.0)],
        tex_coord: [b(0.0), b(0.0)],
    };
    HalaPrimitive {
        indices: vec![0, 1, 2],
        vertices: vec![v(0.0, 0.0, 0.0), v(1.0, 0.0, 0.0), v(0.0, 1.0, 0.0)],
        material_index: 0,
        meshlets: Vec::new(),
        meshlet_vertices: Vec::new(),
        meshlet_primitives: Vec::new(),
    }
}

fn default_material() -> HalaMaterial {
    HalaMaterial {
        _type: HalaMaterialType::Diffuse,
        base_color: [b(1.0), b(1.0), b(1.0)],
        opacity: b(1.0),
        emission: [b(0.0), b(0.0), b(0.0)],
        anisotropic: b(0.0),
        metallic: b(0.0),
        roughness: b(0.5),
        subsurface: b(0.0),
        specular_tint: b(0.0),
        sheen: b(0.0),
        sheen_tint: b(0.0),
        clearcoat: b(0.0),
        clearcoat_roughness: b(0.0),
        specular_transmission: b(0.0),
        ior: b(1.5),
        medium: HalaMedium {
            _type: HalaMediumType::NoMedium,
            color: [b(0.0), b(0.0), b(0.0)],
            density: b(0.0),
            anisotropy: b(0.0),
        },
        base_color_map_index: HALA_INVALID_INDEX,
        emission_map_index: HALA_INVALID_INDEX,
        normal_map_index: HALA_INVALID_INDEX,
        metallic_roughness_map_index: HALA_INVALID_INDEX,
    }
}

fn perspective_camera() -> HalaCamera {
    HalaCamera::Perspective(HalaPerspectiveCamera::new(
        b(1.0),
        b(0.8),
        b(0.1),
        b(1000.0),
        b(10.0),
        b(0.0),
    ))
}

fn empty_scene() -> HalaScene {
    HalaScene {
        nodes: Vec::new(),
        meshes: Vec::new(),
        materials: Vec::new(),
        texture2image_mapping: Vec::new(),
        image2data_mapping: Vec::new(),
        image_data: Vec::new(),
        lights: Vec::new(),
        cameras: Vec::new(),
    }
}

fn streams() -> (HalaCommandBufferSet, HalaCommandBufferSet) {
    (
        HalaCommandBufferSet::new(HalaCommandBufferType::Graphics),
        HalaCommandBufferSet::new(HalaCommandBufferType::Transfer),
    )
}

#[test]
fn end_to_end_point_light_scene() {
    let mut scene = empty_scene();
    let mut camera_node = node_at(glam::Vec3::new(0.0, 0.0, 5.0));
    camera_node.camera_index = 0;
    scene.nodes.push(camera_node);
    let mut light_node = node_at(glam::Vec3::new(0.0, 5.0, 0.0));
    light_node.light_index = 0;
    scene.nodes.push(light_node);
    let mut mesh_node = node_at(glam::Vec3::ZERO);
    mesh_node.mesh_index = 0;
    scene.nodes.push(mesh_node);
    scene.cameras.push(perspective_camera());
    scene.lights.push(HalaLight::new(
        [b(1.0), b(1.0), b(1.0)],
        b(1.0),
        HalaLightType::Point,
        b(0.0),
        b(0.0),
    ));
    scene.meshes.push(HalaMesh { primitives: vec![unit_triangle()] });
    scene.materials.push(default_material());

    let mut context = HalaContext::new();
    let (graphics, transfer) = streams();
    let gpu_scene = HalaSceneGPUUploader::upload(
        &mut context,
        &graphics,
        &transfer,
        &mut scene,
        false,
        false,
    )
    .expect("upload must succeed");

    assert_eq!(gpu_scene.camera_view_matrices.len(), 1);
    assert_eq!(gpu_scene.camera_proj_matrices.len(), 1);
    assert_eq!(gpu_scene.light_data.len(), 1);
    assert_eq!(gpu_scene.light_data[0]._type, 0);
    assert_eq!(gpu_scene.light_data[0].position, [b(0.0), b(5.0), b(0.0)]);
    assert_eq!(gpu_scene.light_data[0].intensity, [b(1.0), b(1.0), b(1.0)]);
    assert_eq!(gpu_scene.meshes.len(), 1);
    assert_eq!(gpu_scene.meshes[0].primitives.len(), 1);
    assert_eq!(gpu_scene.meshes[0].primitives[0].meshlet_count, 0);
    assert!(gpu_scene.meshes[0].primitives[0].btlas.is_none());
    assert!(gpu_scene.tplas.is_none());
    assert!(gpu_scene.warnings.is_empty());
    assert_eq!(gpu_scene.meshes[0].primitives[0].vertex_count, 3);
    assert_eq!(gpu_scene.meshes[0].primitives[0].index_count, 3);
    assert_eq!(gpu_scene.meshes[0].primitives[0].vertex_buffer.data.len(), 3 * 44);
    assert_eq!(gpu_scene.meshes[0].primitives[0].index_buffer.data.len(), 12);
}

#[test]
fn camera_capacity_is_truncated_with_warning() {
    let mut scene = empty_scene();
    for i in 0..10u32 {
        let mut node = node_at(glam::Vec3::new(i as f32, 0.0, 0.0));
        node.camera_index = i;
        scene.nodes.push(node);
        scene.cameras.push(perspective_camera());
    }
    let mut context = HalaContext::new();
    let (graphics, transfer) = streams();
    let gpu_scene = HalaSceneGPUUploader::upload(
        &mut context,
        &graphics,
        &transfer,
        &mut scene,
        false,
        false,
    )
    .expect("upload must succeed");
    assert_eq!(gpu_scene.camera_view_matrices.len(), 8);
    assert_eq!(gpu_scene.camera_proj_matrices.len(), 8);
    assert_eq!(gpu_scene.warnings.len(), 1);
    // The packed camera buffer holds exactly the first eight cameras, and
    // each record starts with its owning node's world position.
    assert_eq!(gpu_scene.cameras.data.len(), 8 * 80);
    for i in 0..8usize {
        let record = &gpu_scene.cameras.data[i * 80..(i + 1) * 80];
        let x = u32::from_le_bytes([record[0], record[1], record[2], record[3]]);
        assert_eq!(x, b(i as f32));
    }
}

#[test]
fn missing_camera_node_fails_the_upload() {
    let mut scene = empty_scene();
    scene.cameras.push(perspective_camera());
    let mut context = HalaContext::new();
    let (graphics, transfer) = streams();
    let result = HalaSceneGPUUploader::upload(
        &mut context,
        &graphics,
        &transfer,
        &mut scene,
        false,
        false,
    );
    assert!(result.is_err());
    let message = result.err().unwrap();
    assert!(message.message().contains("is not found"));
}

#[test]
fn missing_image_payload_fails_the_upload() {
    let mut scene = empty_scene();
    scene.texture2image_mapping.push(3);
    let mut context = HalaContext::new();
    let (graphics, transfer) = streams();
    let result = HalaSceneGPUUploader::upload(
        &mut context,
        &graphics,
        &transfer,
        &mut scene,
        false,
        false,
    );
    assert!(result.is_err());
}

fn read_u32(data: &[u8], offset: usize) -> u32 {
    u32::from_le_bytes([data[offset], data[offset + 1], data[offset + 2], data[offset + 3]])
}

#[test]
fn instance_and_primitive_ordering_for_ray_tracing() {
    let mut scene = empty_scene();
    let mut node_a = node_at(glam::Vec3::new(1.0, 0.0, 0.0));
    node_a.mesh_index = 0;
    scene.nodes.push(node_a);
    let mut node_b = node_at(glam::Vec3::new(0.0, 2.0, 0.0));
    node_b.mesh_index = 1;
    scene.nodes.push(node_b);
    scene.meshes.push(HalaMesh { primitives: vec![unit_triangle()] });
    scene.meshes.push(HalaMesh { primitives: vec![unit_triangle(), unit_triangle()] });
    scene.materials.push(default_material());

    let mut context = HalaContext::new();
    let (graphics, transfer) = streams();
    let gpu_scene = HalaSceneGPUUploader::upload(
        &mut context,
        &graphics,
        &transfer,
        &mut scene,
        false,
        true,
    )
    .expect("upload must succeed");

    // 3 mesh instances plus the light instance.
    let instances = gpu_scene.instances.as_ref().expect("instance buffer");
    assert_eq!(instances.data.len(), 4 * 64);
    assert_eq!(gpu_scene.primitives.len(), 3);
    for k in 0..3usize {
        let custom_index = read_u32(&instances.data, k * 64 + 48) & 0xffffff;
        let sbt_word = read_u32(&instances.data, k * 64 + 52);
        assert_eq!(custom_index, k as u32);
        assert_eq!(sbt_word & 0xffffff, 0);
    }
    let light_custom = read_u32(&instances.data, 3 * 64 + 48) & 0xffffff;
    let light_sbt = read_u32(&instances.data, 3 * 64 + 52) & 0xffffff;
    assert_eq!(light_custom, 0);
    assert_eq!(light_sbt, 1);
    // The light instance carries the identity transform.
    assert_eq!(read_u32(&instances.data, 3 * 64), b(1.0));
    assert_eq!(read_u32(&instances.data, 3 * 64 + 4), b(0.0));
    // Every primitive carries a bottom-level structure, and the top level
    // instances all four.
    for mesh in &gpu_scene.meshes {
        for prim in &mesh.primitives {
            assert!(prim.btlas.is_some());
        }
    }
    let tplas = gpu_scene.tplas.as_ref().expect("top-level structure");
    assert_eq!(tplas.max_primitive_counts, vec![4u32]);
    assert!(gpu_scene.light_btlas.is_some());
}

fn grid_primitive(width: u32, height: u32) -> HalaPrimitive {
    let mut vertices = Vec::new();
    for y in 0..=height {
        for x in 0..=width {
            vertices.push(HalaVertex {
                position: [b(x as f32), b(y as f32), b(0.0)],
                normal: [b(0.0), b(0.0), b(1.0)],
                tangent: [b(1.0), b(0.0), b(0.0)],
                tex_coord: [b(0.0), b(0.0)],
            });
        }
    }
    let stride = width + 1;
    let mut indices = Vec::new();
    for y in 0..height {
        for x in 0..width {
            let base = y * stride + x;
            indices.extend_from_slice(&[base, base + 1, base + stride]);
            indices.extend_from_slice(&[base + 1, base + stride + 1, base + stride]);
        }
    }
    HalaPrimitive {
        indices,
        vertices,
        material_index: 0,
        meshlets: Vec::new(),
        meshlet_vertices: Vec::new(),
        meshlet_primitives: Vec::new(),
    }
}

#[test]
fn meshlets_cover_every_triangle_exactly_once() {
    let mut prim = grid_primitive(16, 16);
    let original: Vec<(u32, u32, u32)> = prim
        .indices
        .chunks(3)
        .map(|c| (c[0], c[1], c[2]))
        .collect();
    build_primitive_meshlets(&mut prim).expect("meshlet build must succeed");
    assert!(!prim.meshlets.is_empty());
    let mut unpacked = Vec::new();
    for m in &prim.meshlets {
        assert!(m.num_of_vertices <= 64);
        assert!(m.num_of_primitives <= 124);
        // The bounding sphere of a real cluster has positive radius.
        assert!(f32::from_bits(m.radius) > 0.0);
        for t in 0..m.num_of_primitives {
            let w = prim.meshlet_primitives[(m.offset_of_primitives + t) as usize];
            let a = prim.meshlet_vertices[(m.offset_of_vertices + (w & 0xff)) as usize];
            let bb = prim.meshlet_vertices[(m.offset_of_vertices + ((w >> 8) & 0xff)) as usize];
            let c = prim.meshlet_vertices[(m.offset_of_vertices + ((w >> 16) & 0xff)) as usize];
            unpacked.push((a, bb, c));
        }
    }
    let mut expected = original.clone();
    expected.sort();
    unpacked.sort();
    assert_eq!(unpacked, expected);
}

#[test]
fn mesh_shading_upload_fills_meshlet_buffers() {
    let mut scene = empty_scene();
    let mut mesh_node = node_at(glam::Vec3::ZERO);
    mesh_node.mesh_index = 0;
    scene.nodes.push(mesh_node);
    scene.meshes.push(HalaMesh { primitives: vec![grid_primitive(8, 8)] });
    scene.materials.push(default_material());

    let mut context = HalaContext::new();
    let (graphics, transfer) = streams();
    let gpu_scene = HalaSceneGPUUploader::upload(
        &mut context,
        &graphics,
        &transfer,
        &mut scene,
        true,
        false,
    )
    .expect("upload must succeed");
    let prim = &gpu_scene.meshes[0].primitives[0];
    let cpu_prim = &scene.meshes[0].primitives[0];
    assert_eq!(prim.meshlet_count as usize, cpu_prim.meshlets.len());
    assert!(prim.meshlet_count > 0);
    let mb = prim.meshlet_buffer.as_ref().expect("meshlet buffer");
    assert_eq!(mb.data.len(), 64 * cpu_prim.meshlets.len());
    let mvb = prim.meshlet_vertex_buffer.as_ref().expect("meshlet vertex buffer");
    assert_eq!(mvb.data.len(), 4 * cpu_prim.meshlet_vertices.len());
    let mpb = prim.meshlet_primitive_buffer.as_ref().expect("meshlet primitive buffer");
    assert_eq!(mpb.data.len(), 4 * cpu_prim.meshlet_primitives.len());
}

#[test]
fn mesh_transform_comes_from_the_owning_node() {
    let mut scene = empty_scene();
    let translation = glam::Vec3::new(3.0, -1.0, 2.0);
    let mut mesh_node = node_at(translation);
    mesh_node.mesh_index = 0;
    scene.nodes.push(mesh_node);
    scene.meshes.push(HalaMesh { primitives: vec![unit_triangle()] });
    scene.materials.push(default_material());

    let mut context = HalaContext::new();
    let (graphics, transfer) = streams();
    let gpu_scene = HalaSceneGPUUploader::upload(
        &mut context,
        &graphics,
        &transfer,
        &mut scene,
        false,
        false,
    )
    .expect("upload must succeed");
    let expected = mat_bits(glam::Mat4::from_translation(translation));
    assert_eq!(gpu_scene.meshes[0].primitives.len(), 1);
    assert_eq!(gpu_scene.meshes[0].transform.e, expected.e);
}
