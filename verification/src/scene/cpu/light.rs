//! Light sources of the CPU scene.

use vstd::prelude::*;
use crate::error::HalaRendererError;
use crate::float_bits::{spec_f32_clamp, spec_f32_lt, f32_clamp, f32_lt};
use crate::math::{
    F32_ZERO, F32_NINETY, F32_HALF, F32_DEG_TO_RAD, spec_f32_mul, spec_f32_div, f32_mul, f32_div,
    lemma_zero_le_ninety,
};

verus! {

/// The kind of a light source.
#[derive(Debug, Clone, Copy, PartialEq, Eq, Structural)]
pub enum HalaLightType {
    Point,
    Directional,
    Spot,
    Quad,
    Sphere,
}

/// The light type a tag byte denotes, if any.
pub open spec fn spec_light_type_from_u8(value: u8) -> Option<HalaLightType> {
    if value == 0 {
        Some(HalaLightType::Point)
    } else if value == 1 {
        Some(HalaLightType::Directional)
    } else if value == 2 {
        Some(HalaLightType::Spot)
    } else if value == 3 {
        Some(HalaLightType::Quad)
    } else if value == 4 {
        Some(HalaLightType::Sphere)
    } else {
        None
    }
}

/// The tag byte of a light type.
pub open spec fn spec_light_type_to_u8(t: HalaLightType) -> u8 {
    match t {
        HalaLightType::Point => 0u8,
        HalaLightType::Directional => 1u8,
        HalaLightType::Spot => 2u8,
        HalaLightType::Quad => 3u8,
        HalaLightType::Sphere => 4u8,
    }
}

impl HalaLightType {
    /// Parse a tag byte; tags above 4 are rejected, since they may come from
    /// untrusted content files.
    pub fn from_u8(value: u8) -> (r: Result<Self, HalaRendererError>)
        ensures
            spec_light_type_from_u8(value) matches Some(t) ==> r matches Ok(x) && x == t,
            spec_light_type_from_u8(value) is None ==> r is Err,
    {
        match value {
            0 => Ok(HalaLightType::Point),
            1 => Ok(HalaLightType::Directional),
            2 => Ok(HalaLightType::Spot),
            3 => Ok(HalaLightType::Quad),
            4 => Ok(HalaLightType::Sphere),
            _ => Err(HalaRendererError::new("Invalid light type.", None)),
        }
    }

    /// The tag byte of this light type.
    pub fn to_u8(&self) -> (r: u8)
        ensures
            r == spec_light_type_to_u8(*self),
            spec_light_type_from_u8(r) == Some(*self),
    {
        match self {
            HalaLightType::Point => 0u8,
            HalaLightType::Directional => 1u8,
            HalaLightType::Spot => 2u8,
            HalaLightType::Quad => 3u8,
            HalaLightType::Sphere => 4u8,
        }
    }
}

/// A light source: color, scalar intensity, kind, and two kind-specific
/// parameters. For a directional light `params.0` is the soft-edge angle in
/// radians; for a spot light the two cone angles; for a quad light its width
/// and height; for a sphere light its radius.
pub struct HalaLight {
    pub color: [u32; 3],
    pub intensity: u32,
    pub light_type: HalaLightType,
    pub params: (u32, u32),
}

/// The light record obtained from raw authored values: directional soft
/// angles are clamped to [0, 90] degrees and converted to radians; spot cone
/// angles are clamped to [0, 90] and put in inner-before-outer order; a quad
/// light's intensity, authored as an isotropic point intensity, is rescaled
/// by its single-sided area `0.5 * width * height`.
pub open spec fn spec_light_new(
    color: [u32; 3],
    intensity: u32,
    light_type: HalaLightType,
    param0: u32,
    param1: u32,
) -> HalaLight {
    match light_type {
        HalaLightType::Directional => (HalaLight {
            color,
            intensity,
            light_type,
            params: (
                spec_f32_mul(spec_f32_clamp(param0, F32_ZERO, F32_NINETY), F32_DEG_TO_RAD),
                param1,
            ),
        }),
        HalaLightType::Spot => ({
            let p0 = spec_f32_clamp(param0, F32_ZERO, F32_NINETY);
            let p1 = spec_f32_clamp(param1, F32_ZERO, F32_NINETY);
            if spec_f32_lt(p1, p0) {
                HalaLight { color, intensity, light_type, params: (p1, p0) }
            } else {
                HalaLight { color, intensity, light_type, params: (p0, p1) }
            }
        }),
        HalaLightType::Quad => (HalaLight {
            color,
            intensity: spec_f32_div(
                intensity,
                spec_f32_mul(spec_f32_mul(F32_HALF, param0), param1),
            ),
            light_type,
            params: (param0, param1),
        }),
        _ => (HalaLight { color, intensity, light_type, params: (param0, param1) }),
    }
}

impl HalaLight {
    /// Build a light from raw authored values, normalizing the parameters as
    /// `spec_light_new` describes.
    pub fn new(
        color: [u32; 3],
        intensity: u32,
        light_type: HalaLightType,
        param0: u32,
        param1: u32,
    ) -> (r: Self)
        ensures
            r == spec_light_new(color, intensity, light_type, param0, param1),
    {
        proof {
            lemma_zero_le_ninety();
        }
        match light_type {
            HalaLightType::Directional => {
                let p0 = f32_mul(f32_clamp(param0, F32_ZERO, F32_NINETY), F32_DEG_TO_RAD);
                Self { color, intensity, light_type, params: (p0, param1) }
            },
            HalaLightType::Spot => {
                let p0 = f32_clamp(param0, F32_ZERO, F32_NINETY);
                let p1 = f32_clamp(param1, F32_ZERO, F32_NINETY);
                if f32_lt(p1, p0) {
                    Self { color, intensity, light_type, params: (p1, p0) }
                } else {
                    Self { color, intensity, light_type, params: (p0, p1) }
                }
            },
            HalaLightType::Quad => {
                let corrected = f32_div(intensity, f32_mul(f32_mul(F32_HALF, param0), param1));
                Self { color, intensity: corrected, light_type, params: (param0, param1) }
            },
            _ => Self { color, intensity, light_type, params: (param0, param1) },
        }
    }
}

} // verus!
