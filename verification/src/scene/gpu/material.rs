//! The packed GPU material record and its derivation from a CPU material.

use vstd::prelude::*;
use crate::bytes::{spec_u32_le, spec_zero_bytes, push_u32_le, push_zero_bytes};
use crate::float_bits::{spec_f32_clamp, spec_f32_max, f32_clamp, f32_max};
use crate::math::{
    F32_ZERO, F32_HALF, F32_ONE, F32_TWO, F32_0_33, F32_0_45, F32_0_09, F32_0_9,
    F32_0_001, F32_FRAC_PI_2, spec_f32_add, spec_f32_sub, spec_f32_mul, spec_f32_div,
    spec_f32_sqrt, f32_add, f32_sub, f32_mul, f32_div, f32_sqrt, lemma_zero_le_one,
};
use crate::scene::cpu::material::{
    HalaMaterial as HalaMaterialInCPU, HalaMaterialType, spec_material_type_to_u8,
    spec_medium_type_to_u8,
};

verus! {

/// The byte size of one packed GPU material record.
pub const MATERIAL_BYTE_SIZE: usize = 144;

/// The packed participating-medium block of a material record.
#[derive(Debug, Clone, Copy)]
pub struct HalaMedium {
    pub color: [u32; 3],
    pub density: u32,
    pub anisotropy: u32,
    pub _type: u32,
}

/// The packed material record: the CPU material's parameters plus the two
/// derived anisotropic roughness terms `ax` and `ay` (see `from_spec`).
#[derive(Debug, Clone, Copy)]
pub struct HalaMaterial {
    pub medium: HalaMedium,
    pub base_color: [u32; 3],
    pub opacity: u32,
    pub emission: [u32; 3],
    pub anisotropic: u32,
    pub metallic: u32,
    pub roughness: u32,
    pub subsurface: u32,
    pub specular_tint: u32,
    pub sheen: u32,
    pub sheen_tint: u32,
    pub clearcoat: u32,
    pub clearcoat_roughness: u32,
    pub specular_transmission: u32,
    pub ior: u32,
    pub ax: u32,
    pub ay: u32,
    pub base_color_map_index: u32,
    pub normal_map_index: u32,
    pub metallic_roughness_map_index: u32,
    pub emission_map_index: u32,
    pub _type: u32,
}

/// The Oren-Nayar sigma of a diffuse material: `roughness * 0.5 * (pi/2)`.
pub open spec fn spec_diffuse_sigma(roughness: u32) -> u32 {
    spec_f32_mul(spec_f32_mul(roughness, F32_HALF), F32_FRAC_PI_2)
}

/// The diffuse `ax` term: `1 - sigma2 / (2 * (sigma2 + 0.33))`.
pub open spec fn spec_diffuse_ax(roughness: u32) -> u32 {
    let sigma = spec_diffuse_sigma(roughness);
    let sigma2 = spec_f32_mul(sigma, sigma);
    spec_f32_sub(
        F32_ONE,
        spec_f32_div(sigma2, spec_f32_mul(F32_TWO, spec_f32_add(sigma2, F32_0_33))),
    )
}

/// The diffuse `ay` term: `0.45 * sigma2 / (sigma2 + 0.09)`.
pub open spec fn spec_diffuse_ay(roughness: u32) -> u32 {
    let sigma = spec_diffuse_sigma(roughness);
    let sigma2 = spec_f32_mul(sigma, sigma);
    spec_f32_div(spec_f32_mul(F32_0_45, sigma2), spec_f32_add(sigma2, F32_0_09))
}

/// The principled aspect ratio: `sqrt(1 - clamp(anisotropic, 0, 1) * 0.9)`.
pub open spec fn spec_disney_aspect(anisotropic: u32) -> u32 {
    spec_f32_sqrt(
        spec_f32_sub(
            F32_ONE,
            spec_f32_mul(spec_f32_clamp(anisotropic, F32_ZERO, F32_ONE), F32_0_9),
        ),
    )
}

/// The roughness stored for a material: squared for a principled material.
pub open spec fn spec_derived_roughness(m: HalaMaterialInCPU) -> u32 {
    if m._type == HalaMaterialType::Diffuse {
        m.roughness
    } else {
        spec_f32_mul(m.roughness, m.roughness)
    }
}

/// The derived `ax` term: the Oren-Nayar A term for a diffuse material, or
/// `max(0.001, roughness2 / aspect)` for a principled one.
pub open spec fn spec_derived_ax(m: HalaMaterialInCPU) -> u32 {
    if m._type == HalaMaterialType::Diffuse {
        spec_diffuse_ax(m.roughness)
    } else {
        spec_f32_max(
            F32_0_001,
            spec_f32_div(spec_f32_mul(m.roughness, m.roughness), spec_disney_aspect(m.anisotropic)),
        )
    }
}

/// The derived `ay` term: the Oren-Nayar B term for a diffuse material, or
/// `max(0.001, roughness2 * aspect)` for a principled one.
pub open spec fn spec_derived_ay(m: HalaMaterialInCPU) -> u32 {
    if m._type == HalaMaterialType::Diffuse {
        spec_diffuse_ay(m.roughness)
    } else {
        spec_f32_max(
            F32_0_001,
            spec_f32_mul(spec_f32_mul(m.roughness, m.roughness), spec_disney_aspect(m.anisotropic)),
        )
    }
}

impl HalaMaterial {
    /// The packed record a CPU material converts to: every parameter copied,
    /// the roughness replaced by its derived form, `ax`/`ay` derived per
    /// shading model, and the type tags widened to 32 bits.
    pub open spec fn from_spec(material: &HalaMaterialInCPU) -> HalaMaterial {
        HalaMaterial {
            medium: HalaMedium {
                color: material.medium.color,
                density: material.medium.density,
                anisotropy: material.medium.anisotropy,
                _type: spec_medium_type_to_u8(material.medium._type) as u32,
            },
            base_color: material.base_color,
            opacity: material.opacity,
            emission: material.emission,
            anisotropic: material.anisotropic,
            metallic: material.metallic,
            roughness: spec_derived_roughness(*material),
            subsurface: material.subsurface,
            specular_tint: material.specular_tint,
            sheen: material.sheen,
            sheen_tint: material.sheen_tint,
            clearcoat: material.clearcoat,
            clearcoat_roughness: material.clearcoat_roughness,
            specular_transmission: material.specular_transmission,
            ior: material.ior,
            ax: spec_derived_ax(*material),
            ay: spec_derived_ay(*material),
            base_color_map_index: material.base_color_map_index,
            normal_map_index: material.normal_map_index,
            metallic_roughness_map_index: material.metallic_roughness_map_index,
            emission_map_index: material.emission_map_index,
            _type: spec_material_type_to_u8(material._type) as u32,
        }
    }

    /// Pack a CPU material, deriving the anisotropic roughness terms.
    pub fn from_material(material: &HalaMaterialInCPU) -> (r: Self)
        ensures
            r == Self::from_spec(material),
    {
        let diffuse = matches!(material._type, HalaMaterialType::Diffuse);
        let (roughness, ax, ay): (u32, u32, u32) = if diffuse {
            let sigma = f32_mul(f32_mul(material.roughness, F32_HALF), F32_FRAC_PI_2);
            let sigma2 = f32_mul(sigma, sigma);
            (
                material.roughness,
                f32_sub(F32_ONE, f32_div(sigma2, f32_mul(F32_TWO, f32_add(sigma2, F32_0_33)))),
                f32_div(f32_mul(F32_0_45, sigma2), f32_add(sigma2, F32_0_09)),
            )
        } else {
            proof {
                lemma_zero_le_one();
            }
            let roughness = f32_mul(material.roughness, material.roughness);
            let aspect = f32_sqrt(
                f32_sub(F32_ONE, f32_mul(f32_clamp(material.anisotropic, F32_ZERO, F32_ONE), F32_0_9)),
            );
            (
                roughness,
                f32_max(F32_0_001, f32_div(roughness, aspect)),
                f32_max(F32_0_001, f32_mul(roughness, aspect)),
            )
        };
        Self {
            medium: HalaMedium {
                color: material.medium.color,
                density: material.medium.density,
                anisotropy: material.medium.anisotropy,
                _type: material.medium._type.to_u8() as u32,
            },
            base_color: material.base_color,
            opacity: material.opacity,
            emission: material.emission,
            anisotropic: material.anisotropic,
            metallic: material.metallic,
            roughness,
            subsurface: material.subsurface,
            specular_tint: material.specular_tint,
            sheen: material.sheen,
            sheen_tint: material.sheen_tint,
            clearcoat: material.clearcoat,
            clearcoat_roughness: material.clearcoat_roughness,
            specular_transmission: material.specular_transmission,
            ior: material.ior,
            ax,
            ay,
            base_color_map_index: material.base_color_map_index,
            normal_map_index: material.normal_map_index,
            metallic_roughness_map_index: material.metallic_roughness_map_index,
            emission_map_index: material.emission_map_index,
            _type: material._type.to_u8() as u32,
        }
    }
}

/// The packed 144-byte layout of a material record: the medium block (its
/// color, density, anisotropy and tag, padded to 32 bytes), then every
/// shading parameter, the derived terms, the map indices and the type tag,
/// then 12 bytes of tail padding.
pub open spec fn spec_material_bytes(m: HalaMaterial) -> Seq<u8> {
    spec_u32_le(m.medium.color[0]) + spec_u32_le(m.medium.color[1]) + spec_u32_le(m.medium.color[2])
        + spec_u32_le(m.medium.density) + spec_u32_le(m.medium.anisotropy) + spec_u32_le(
        m.medium._type,
    ) + spec_zero_bytes(8) + spec_u32_le(m.base_color[0]) + spec_u32_le(m.base_color[1])
        + spec_u32_le(m.base_color[2]) + spec_u32_le(m.opacity) + spec_u32_le(m.emission[0])
        + spec_u32_le(m.emission[1]) + spec_u32_le(m.emission[2]) + spec_u32_le(m.anisotropic)
        + spec_u32_le(m.metallic) + spec_u32_le(m.roughness) + spec_u32_le(m.subsurface)
        + spec_u32_le(m.specular_tint) + spec_u32_le(m.sheen) + spec_u32_le(m.sheen_tint)
        + spec_u32_le(m.clearcoat) + spec_u32_le(m.clearcoat_roughness) + spec_u32_le(
        m.specular_transmission,
    ) + spec_u32_le(m.ior) + spec_u32_le(m.ax) + spec_u32_le(m.ay) + spec_u32_le(
        m.base_color_map_index,
    ) + spec_u32_le(m.normal_map_index) + spec_u32_le(m.metallic_roughness_map_index) + spec_u32_le(
        m.emission_map_index,
    ) + spec_u32_le(m._type) + spec_zero_bytes(12)
}

/// Append the packed 144-byte layout of `m`.
#[verifier::rlimit(100)]
pub fn append_material_bytes(out: &mut Vec<u8>, m: &HalaMaterial)
    ensures
        final(out)@ == old(out)@ + spec_material_bytes(*m),
        final(out)@.len() == old(out)@.len() + MATERIAL_BYTE_SIZE,
{
    push_u32_le(out, m.medium.color[0]);
    push_u32_le(out, m.medium.color[1]);
    push_u32_le(out, m.medium.color[2]);
    push_u32_le(out, m.medium.density);
    push_u32_le(out, m.medium.anisotropy);
    push_u32_le(out, m.medium._type);
    push_zero_bytes(out, 8);
    push_u32_le(out, m.base_color[0]);
    push_u32_le(out, m.base_color[1]);
    push_u32_le(out, m.base_color[2]);
    push_u32_le(out, m.opacity);
    push_u32_le(out, m.emission[0]);
    push_u32_le(out, m.emission[1]);
    push_u32_le(out, m.emission[2]);
    push_u32_le(out, m.anisotropic);
    push_u32_le(out, m.metallic);
    push_u32_le(out, m.roughness);
    push_u32_le(out, m.subsurface);
    push_u32_le(out, m.specular_tint);
    push_u32_le(out, m.sheen);
    push_u32_le(out, m.sheen_tint);
    push_u32_le(out, m.clearcoat);
    push_u32_le(out, m.clearcoat_roughness);
    push_u32_le(out, m.specular_transmission);
    push_u32_le(out, m.ior);
    push_u32_le(out, m.ax);
    push_u32_le(out, m.ay);
    push_u32_le(out, m.base_color_map_index);
    push_u32_le(out, m.normal_map_index);
    push_u32_le(out, m.metallic_roughness_map_index);
    push_u32_le(out, m.emission_map_index);
    push_u32_le(out, m._type);
    push_zero_bytes(out, 12);
    proof {
        assert(out@ =~= old(out)@ + spec_material_bytes(*m));
    }
}

} // verus!
