//! Tests of the record builders and the bit-level scalar operations:
//! hierarchy propagation, light records and boxes, material derivation,
//! type tags, statistics and the IEEE helpers.

use hala_renderer::error::HalaRendererError;
use hala_renderer::float_bits::{f32_le, f32_lt, f32_max, f32_min, f32_neg, f32_is_nan};
use hala_renderer::math::{f32_add, f32_div, f32_mul, f32_sqrt, f32_sub, mat4_mul, Mat4Bits};
use hala_renderer::renderer::{HalaEnvType, HalaRendererData, HalaRendererInfo,
    HalaRendererStatistics};
use hala_renderer::scene::cpu::light::{HalaLight, HalaLightType};
use hala_renderer::scene::cpu::material::{HalaMaterial, HalaMaterialType, HalaMedium,
    HalaMediumType};
use hala_renderer::scene::cpu::node::{HalaNode, HALA_INVALID_INDEX};
use hala_renderer::scene::cpu::scene::HalaScene;
use hala_renderer::scene::gpu::light::build_light_record;
use hala_renderer::scene::gpu::material::HalaMaterial as GpuMaterial;
use hala_renderer::scene::gpu::camera::HalaCamera as GpuCamera;
use hala_renderer::scene::cpu::camera::{HalaCamera, HalaPerspectiveCamera};

fn b(x: f32) -> u32 {
    x.to_bits()
}

fn mat_bits(m: glam::Mat4) -> Mat4Bits {
    let a = m.to_cols_array();
    let mut e = [0u32; 16];
    for i in 0..16 {
        e[i] = a[i].to_bits();
    }
    Mat4Bits { e }
}

fn from_bits_mat(m: &Mat4Bits) -> glam::Mat4 {
    let mut a = [0f32; 16];
    for i in 0..16 {
        a[i] = f32::from_bits(m.e[i]);
    }
    glam::Mat4::from_cols_array(&a)
}

fn base_material(t: HalaMaterialType, roughness: f32, anisotropic: f32) -> HalaMaterial {
    HalaMaterial {
        _type: t,
        base_color: [b(1.0), b(1.0), b(1.0)],
        opacity: b(1.0),
        emission: [b(0.0), b(0.0), b(0.0)],
        anisotropic: b(anisotropic),
        metallic: b(0.0),
        roughness: b(roughness),
        subsurface: b(0.0),
        specular_tint: b(0.0),
        sheen: b(0.0),
        sheen_tint: b(0.0),
        clearcoat: b(0.0),
        clearcoat_roughness: b(0.0),
        specular_transmission: b(0.0),
        ior: b(1.5),
        medium: HalaMedium {
            _type: HalaMediumType::NoMedium,
            color: [b(0.0), b(0.0), b(0.0)],
            density: b(0.0),
            anisotropy: b(0.0),
        },
        base_color_map_index: HALA_INVALID_INDEX,
        emission_map_index: HALA_INVALID_INDEX,
        normal_map_index: HALA_INVALID_INDEX,
        metallic_roughness_map_index: HALA_INVALID_INDEX,
    }
}

#[test]
fn world_transforms_match_a_naive_recursion() {
    // A small tree: 0 is the root, 1 and 2 hang off 0, 3 off 1, 4 off 3,
    // 5 off 2, with assorted rotations and translations.
    let locals = [
        glam::Mat4::from_translation(glam::Vec3::new(1.0, 2.0, 3.0)),
        glam::Mat4::from_rotation_y(0.7),
        glam::Mat4::from_scale(glam::Vec3::new(2.0, 1.0, 0.5)),
        glam::Mat4::from_rotation_x(-1.2) * glam::Mat4::from_translation(glam::Vec3::X),
        glam::Mat4::from_translation(glam::Vec3::new(-4.0, 0.25, 9.0)),
        glam::Mat4::from_rotation_z(2.1),
    ];
    let parents: [Option<u32>; 6] = [None, Some(0), Some(0), Some(1), Some(3), Some(2)];
    let mut scene = HalaScene {
        nodes: Vec::new(),
        meshes: Vec::new(),
        materials: Vec::new(),
        texture2image_mapping: Vec::new(),
        image2data_mapping: Vec::new(),
        image_data: Vec::new(),
        lights: Vec::new(),
        cameras: Vec::new(),
    };
    for i in 0..6 {
        let mut node = HalaNode::default();
        node.parent = parents[i];
        node.local_transform = mat_bits(locals[i]);
        scene.nodes.push(node);
    }
    scene.update_node_hierarchies();

    fn naive(locals: &[glam::Mat4], parents: &[Option<u32>], i: usize) -> glam::Mat4 {
        match parents[i] {
            Some(p) => naive(locals, parents, p as usize) * locals[i],
            None => locals[i],
        }
    }
    for i in 0..6 {
        let expected = mat_bits(naive(&locals, &parents, i));
        assert_eq!(scene.nodes[i].world_transform.e, expected.e, "node {}", i);
    }
    // Children lists follow node order.
    assert_eq!(scene.nodes[0].children, vec![1, 2]);
    assert_eq!(scene.nodes[1].children, vec![3]);
    assert_eq!(scene.nodes[3].children, vec![4]);
    assert_eq!(scene.nodes[2].children, vec![5]);
}

#[test]
fn out_of_order_parent_contributes_nothing() {
    // The single top-down pass resolves parents that precede their child;
    // a parent reference pointing forward leaves the child at its local
    // transform.
    let mut scene = HalaScene {
        nodes: Vec::new(),
        meshes: Vec::new(),
        materials: Vec::new(),
        texture2image_mapping: Vec::new(),
        image2data_mapping: Vec::new(),
        image_data: Vec::new(),
        lights: Vec::new(),
        cameras: Vec::new(),
    };
    let child_local = glam::Mat4::from_translation(glam::Vec3::new(2.0, 0.0, 0.0));
    let parent_local = glam::Mat4::from_translation(glam::Vec3::new(0.0, 3.0, 0.0));
    let mut child = HalaNode::default();
    child.parent = Some(1);
    child.local_transform = mat_bits(child_local);
    scene.nodes.push(child);
    let mut parent = HalaNode::default();
    parent.local_transform = mat_bits(parent_local);
    scene.nodes.push(parent);
    scene.update_node_hierarchies();
    assert_eq!(scene.nodes[0].world_transform.e, mat_bits(child_local).e);
    assert_eq!(scene.nodes[1].world_transform.e, mat_bits(parent_local).e);
    assert_eq!(scene.nodes[1].children, vec![0]);
}

#[test]
fn projection_matrices_have_the_documented_shape() {
    let camera = HalaPerspectiveCamera::new(b(1.5), b(0.9), b(0.25), b(100.0), b(10.0), b(0.0));
    let e = &camera.projection.e;
    for i in [1usize, 2, 3, 4, 6, 7, 8, 9, 10, 12, 13, 15] {
        assert_eq!(e[i], b(0.0), "entry {}", i);
    }
    assert_eq!(e[11], b(-1.0));
    assert_eq!(e[14], b(0.25));
}

#[test]
fn quad_light_intensity_is_rescaled_by_area() {
    let light = HalaLight::new(
        [b(1.0), b(1.0), b(1.0)],
        b(10.0),
        HalaLightType::Quad,
        b(2.0),
        b(3.0),
    );
    let expected = 10.0f32 / (0.5f32 * 2.0f32 * 3.0f32);
    assert_eq!(light.intensity, b(expected));
    assert_eq!(light.params, (b(2.0), b(3.0)));

    let mut node = HalaNode::default();
    node.light_index = 0;
    let (record, _aabb) = build_light_record(&light, &node);
    assert_eq!(record._type, 3);
    assert_eq!(record.intensity, [b(expected), b(expected), b(expected)]);
    assert_eq!(record.area, b(2.0f32 * 3.0f32));
    assert_eq!(record.u, [b(2.0), b(0.0), b(0.0)]);
    assert_eq!(record.v, [b(0.0), b(3.0), b(0.0)]);
}

#[test]
fn light_boxes_are_normalized_for_every_type() {
    let kinds = [
        (HalaLightType::Point, 0.0f32, 0.0f32),
        (HalaLightType::Directional, 0.5, 0.0),
        (HalaLightType::Spot, 0.4, 0.9),
        (HalaLightType::Quad, 2.0, 3.0),
        (HalaLightType::Sphere, 1.5, 0.0),
    ];
    // A transform with negated axes, so a quad light's raw corners arrive
    // swapped.
    let m = glam::Mat4::from_scale(glam::Vec3::new(-1.0, -2.0, 1.0))
        * glam::Mat4::from_translation(glam::Vec3::new(3.0, -5.0, 0.5));
    for (kind, p0, p1) in kinds {
        let light = HalaLight::new([b(1.0), b(0.5), b(0.25)], b(4.0), kind, b(p0), b(p1));
        let mut node = HalaNode::default();
        node.light_index = 0;
        node.world_transform = mat_bits(m);
        let (_record, aabb) = build_light_record(&light, &node);
        for axis in 0..3 {
            let lo = f32::from_bits(aabb.min[axis]);
            let hi = f32::from_bits(aabb.max[axis]);
            assert!(lo <= hi, "{:?} axis {}: {} > {}", kind, axis, lo, hi);
        }
    }
}

#[test]
fn material_anisotropic_derivation_round_trip() {
    let isotropic = GpuMaterial::from_material(&base_material(HalaMaterialType::Disney, 0.5, 0.0));
    assert_eq!(isotropic.ax, b(0.25));
    assert_eq!(isotropic.ay, b(0.25));
    assert_eq!(isotropic.roughness, b(0.25));

    let anisotropic = GpuMaterial::from_material(&base_material(HalaMaterialType::Disney, 0.5, 1.0));
    let ax = f32::from_bits(anisotropic.ax);
    let ay = f32::from_bits(anisotropic.ay);
    assert!(ax > ay, "ax = {}, ay = {}", ax, ay);
    let aspect = (1.0f32 - 0.9f32).sqrt();
    assert_eq!(anisotropic.ax, b(0.001f32.max(0.25f32 / aspect)));
    assert_eq!(anisotropic.ay, b(0.001f32.max(0.25f32 * aspect)));
}

#[test]
fn diffuse_material_uses_the_oren_nayar_terms() {
    let m = GpuMaterial::from_material(&base_material(HalaMaterialType::Diffuse, 0.5, 0.0));
    let sigma = 0.5f32 * 0.5f32 * core::f32::consts::FRAC_PI_2;
    let sigma2 = sigma * sigma;
    assert_eq!(m.roughness, b(0.5));
    assert_eq!(m.ax, b(1.0f32 - (sigma2 / (2.0f32 * (sigma2 + 0.33f32)))));
    assert_eq!(m.ay, b(0.45f32 * sigma2 / (sigma2 + 0.09f32)));
    assert_eq!(m._type, 0);
}

#[test]
fn camera_record_uses_the_node_basis() {
    let m = glam::Mat4::from_rotation_y(0.35) * glam::Mat4::from_translation(glam::Vec3::new(
        1.0, 2.0, 3.0,
    ));
    let mut node = HalaNode::default();
    node.camera_index = 0;
    node.world_transform = mat_bits(m);
    let camera = HalaCamera::Perspective(HalaPerspectiveCamera::new(
        b(1.5),
        b(0.9),
        b(0.01),
        b(500.0),
        b(12.0),
        b(0.1),
    ));
    let record = GpuCamera::new(&node, &camera);
    let w = mat_bits(m);
    assert_eq!(record.position, [w.e[12], w.e[13], w.e[14]]);
    assert_eq!(record.right, [w.e[0], w.e[1], w.e[2]]);
    assert_eq!(record.up, [w.e[4], w.e[5], w.e[6]]);
    // The forward axis is the negated z axis.
    assert_eq!(record.forward[0], f32_neg(w.e[8]));
    assert_eq!(record.yfov, b(0.9));
    assert_eq!(record._type, 0);
}

#[test]
fn spot_light_angles_are_clamped_and_ordered() {
    let light = HalaLight::new(
        [b(1.0), b(1.0), b(1.0)],
        b(1.0),
        HalaLightType::Spot,
        b(80.0),
        b(20.0),
    );
    // The swap puts the smaller angle first.
    assert_eq!(light.params, (b(20.0), b(80.0)));
    let clamped = HalaLight::new(
        [b(1.0), b(1.0), b(1.0)],
        b(1.0),
        HalaLightType::Spot,
        b(120.0),
        b(-5.0),
    );
    assert_eq!(clamped.params, (b(0.0), b(90.0)));
}

#[test]
fn spot_light_record_carries_the_cone_cosines() {
    let light = HalaLight::new(
        [b(1.0), b(1.0), b(1.0)],
        b(2.0),
        HalaLightType::Spot,
        b(0.4),
        b(0.9),
    );
    let mut node = HalaNode::default();
    node.light_index = 0;
    let (record, _aabb) = build_light_record(&light, &node);
    assert_eq!(record._type, 2);
    assert_eq!(record.v[0], b(0.4f32.cos()));
    assert_eq!(record.v[1], b(0.9f32.cos()));
    // The facing axis is negated: the identity node faces -z.
    assert_eq!(record.u, [b(-0.0), b(-0.0), b(-1.0)]);
}

#[test]
fn perspective_camera_matches_the_reference_projection() {
    let camera = HalaPerspectiveCamera::new(b(1.5), b(0.9), b(0.25), b(100.0), b(10.0), b(0.0));
    let expected = glam::camera::rh::proj::directx::perspective_infinite_reverse(0.9, 1.5, 0.25);
    assert_eq!(from_bits_mat(&camera.projection), expected);
}

#[test]
fn directional_light_angle_converts_to_radians() {
    let light = HalaLight::new(
        [b(1.0), b(1.0), b(1.0)],
        b(1.0),
        HalaLightType::Directional,
        b(45.0),
        b(0.0),
    );
    assert_eq!(light.params.0, b(45.0f32.to_radians()));
}

#[test]
fn tag_bytes_round_trip_and_reject_invalid_values() {
    for v in 0u8..5 {
        assert_eq!(HalaLightType::from_u8(v).unwrap().to_u8(), v);
    }
    assert!(HalaLightType::from_u8(5).is_err());
    for v in 0u8..2 {
        assert_eq!(HalaMaterialType::from_u8(v).unwrap().to_u8(), v);
    }
    assert!(HalaMaterialType::from_u8(2).is_err());
    for v in 0u8..4 {
        assert_eq!(HalaMediumType::from_u8(v).unwrap().to_u8(), v);
    }
    assert!(HalaMediumType::from_u8(4).is_err());
    for v in 0u8..2 {
        assert_eq!(HalaEnvType::from_u8(v).unwrap().to_u8(), v);
    }
    assert!(HalaEnvType::from_u8(2).is_err());
}

#[test]
fn bit_level_comparisons_agree_with_the_hardware() {
    let samples = [
        0.0f32, -0.0, 1.0, -1.0, 0.5, -2.5, f32::INFINITY, f32::NEG_INFINITY, f32::NAN,
        f32::MIN_POSITIVE, -f32::MIN_POSITIVE, 1.0e-40,
    ];
    for &x in &samples {
        assert_eq!(f32_is_nan(x.to_bits()), x.is_nan());
        for &y in &samples {
            assert_eq!(f32_le(x.to_bits(), y.to_bits()), x <= y, "le {} {}", x, y);
            assert_eq!(f32_lt(x.to_bits(), y.to_bits()), x < y, "lt {} {}", x, y);
            let min = f32::from_bits(f32_min(x.to_bits(), y.to_bits()));
            let max = f32::from_bits(f32_max(x.to_bits(), y.to_bits()));
            if !x.is_nan() && !y.is_nan() {
                assert_eq!(min, x.min(y), "min {} {}", x, y);
                assert_eq!(max, x.max(y), "max {} {}", x, y);
            }
        }
    }
}

#[test]
fn scalar_arithmetic_wrappers_match_the_hardware() {
    assert_eq!(f32_add(b(2.0), b(3.0)), b(5.0));
    assert_eq!(f32_sub(b(2.0), b(3.25)), b(-1.25));
    assert_eq!(f32_mul(b(1.5), b(4.0)), b(6.0));
    assert_eq!(f32_div(b(10.0), b(3.0)), b(10.0f32 / 3.0f32));
    assert_eq!(f32_sqrt(b(2.0)), b(2.0f32.sqrt()));
    assert_eq!(f32_neg(b(7.5)), b(-7.5));
}

#[test]
fn matrix_product_wrapper_matches_glam() {
    let a = glam::Mat4::from_rotation_x(0.3) * glam::Mat4::from_translation(glam::Vec3::ONE);
    let bm = glam::Mat4::from_scale(glam::Vec3::new(2.0, 3.0, 4.0));
    let product = mat4_mul(&mat_bits(a), &mat_bits(bm));
    assert_eq!(from_bits_mat(&product), a * bm);
}

#[test]
fn scene_predicates_report_media_and_transparency() {
    let mut scene = HalaScene {
        nodes: Vec::new(),
        meshes: Vec::new(),
        materials: Vec::new(),
        texture2image_mapping: Vec::new(),
        image2data_mapping: Vec::new(),
        image_data: Vec::new(),
        lights: Vec::new(),
        cameras: Vec::new(),
    };
    assert!(!scene.has_light());
    assert!(!scene.has_medium());
    assert!(!scene.has_transparent());
    let mut opaque = base_material(HalaMaterialType::Diffuse, 0.5, 0.0);
    opaque.opacity = b(1.0);
    scene.materials.push(opaque);
    assert!(!scene.has_transparent());
    let mut glassy = base_material(HalaMaterialType::Disney, 0.1, 0.0);
    glassy.opacity = b(0.5);
    glassy.medium._type = HalaMediumType::Scatter;
    scene.materials.push(glassy);
    assert!(scene.has_transparent());
    assert!(scene.has_medium());
    assert!(scene.has_medium_with(HalaMediumType::Scatter));
    assert!(!scene.has_medium_with(HalaMediumType::Absorb));
}

#[test]
fn renderer_records_track_frames_and_windows() {
    let info = HalaRendererInfo::new("renderer", 1920, 1080);
    assert_eq!(info.name, "renderer");
    assert_eq!(info.width, 1920);
    let data = HalaRendererData::new();
    assert_eq!(data.image_index, 0);
    assert!(!data.is_device_lost);

    let mut stats = HalaRendererStatistics::new();
    stats.inc_total_frames();
    stats.inc_total_frames();
    assert_eq!(stats.total_frames, 2);
    stats.set_gpu_time(5_000_000, 16_000_000);
    assert_eq!(stats.total_gpu_frames, 1);
    assert_eq!(stats.total_gpu_nanoseconds, 5_000_000);
    assert_eq!(stats.elapsed_time_nanos, 16_000_000);
    // Crossing the one-second window resets the aggregates and carries the
    // overshoot.
    stats.set_gpu_time(5_000_000, 1_100_000_000);
    assert_eq!(stats.total_gpu_frames, 0);
    assert_eq!(stats.total_gpu_nanoseconds, 0);
    assert_eq!(stats.elapsed_time_nanos, 100_000_000);
    stats.reset(7);
    assert_eq!(stats.total_frames, 0);
    assert_eq!(stats.last_stat_time_nanos, 7);
}

#[test]
fn errors_carry_their_message() {
    let err = HalaRendererError::new("something went wrong", None);
    assert!(err.cause.is_none());
    let wrapped = HalaRendererError::new("outer failure", Some("inner detail".to_string()));
    assert_eq!(wrapped.cause.as_deref(), Some("inner detail"));
    assert_eq!(err.message(), "something went wrong");
}
