//! Materials and participating media of the CPU scene.

use vstd::prelude::*;
use crate::error::HalaRendererError;

verus! {

/// The shading model of a material.
#[derive(Debug, Clone, Copy, PartialEq, Eq, Structural)]
pub enum HalaMaterialType {
    Diffuse,
    Disney,
}

/// The material type a tag byte denotes, if any.
pub open spec fn spec_material_type_from_u8(value: u8) -> Option<HalaMaterialType> {
    if value == 0 {
        Some(HalaMaterialType::Diffuse)
    } else if value == 1 {
        Some(HalaMaterialType::Disney)
    } else {
        None
    }
}

/// The tag byte of a material type.
pub open spec fn spec_material_type_to_u8(t: HalaMaterialType) -> u8 {
    match t {
        HalaMaterialType::Diffuse => 0u8,
        HalaMaterialType::Disney => 1u8,
    }
}

impl HalaMaterialType {
    /// Parse a tag byte; tags above 1 are rejected, since they may come from
    /// untrusted content files.
    pub fn from_u8(value: u8) -> (r: Result<Self, HalaRendererError>)
        ensures
            spec_material_type_from_u8(value) matches Some(t) ==> r matches Ok(x) && x == t,
            spec_material_type_from_u8(value) is None ==> r is Err,
    {
        match value {
            0 => Ok(HalaMaterialType::Diffuse),
            1 => Ok(HalaMaterialType::Disney),
            _ => Err(HalaRendererError::new("Invalid material type.", None)),
        }
    }

    /// The tag byte of this material type.
    pub fn to_u8(&self) -> (r: u8)
        ensures
            r == spec_material_type_to_u8(*self),
            spec_material_type_from_u8(r) == Some(*self),
    {
        match self {
            HalaMaterialType::Diffuse => 0u8,
            HalaMaterialType::Disney => 1u8,
        }
    }
}

/// The kind of a participating medium.
#[derive(Debug, Clone, Copy, PartialEq, Eq, Structural)]
pub enum HalaMediumType {
    NoMedium,
    Absorb,
    Scatter,
    Emissive,
}

/// The medium type a tag byte denotes, if any.
pub open spec fn spec_medium_type_from_u8(value: u8) -> Option<HalaMediumType> {
    if value == 0 {
        Some(HalaMediumType::NoMedium)
    } else if value == 1 {
        Some(HalaMediumType::Absorb)
    } else if value == 2 {
        Some(HalaMediumType::Scatter)
    } else if value == 3 {
        Some(HalaMediumType::Emissive)
    } else {
        None
    }
}

/// The tag byte of a medium type.
pub open spec fn spec_medium_type_to_u8(t: HalaMediumType) -> u8 {
    match t {
        HalaMediumType::NoMedium => 0u8,
        HalaMediumType::Absorb => 1u8,
        HalaMediumType::Scatter => 2u8,
        HalaMediumType::Emissive => 3u8,
    }
}

impl HalaMediumType {
    /// Parse a tag byte; tags above 3 are rejected, since they may come from
    /// untrusted content files.
    pub fn from_u8(value: u8) -> (r: Result<Self, HalaRendererError>)
        ensures
            spec_medium_type_from_u8(value) matches Some(t) ==> r matches Ok(x) && x == t,
            spec_medium_type_from_u8(value) is None ==> r is Err,
    {
        match value {
            0 => Ok(HalaMediumType::NoMedium),
            1 => Ok(HalaMediumType::Absorb),
            2 => Ok(HalaMediumType::Scatter),
            3 => Ok(HalaMediumType::Emissive),
            _ => Err(HalaRendererError::new("Invalid medium type.", None)),
        }
    }

    /// The tag byte of this medium type.
    pub fn to_u8(&self) -> (r: u8)
        ensures
            r == spec_medium_type_to_u8(*self),
            spec_medium_type_from_u8(r) == Some(*self),
    {
        match self {
            HalaMediumType::NoMedium => 0u8,
            HalaMediumType::Absorb => 1u8,
            HalaMediumType::Scatter => 2u8,
            HalaMediumType::Emissive => 3u8,
        }
    }
}

/// A participating medium inside an object.
#[derive(Debug, Clone, Copy)]
pub struct HalaMedium {
    pub _type: HalaMediumType,
    pub color: [u32; 3],
    pub density: u32,
    pub anisotropy: u32,
}

/// A physically-based material: its shading parameters (each an IEEE-754
/// encoding), an optional medium, and texture-map indices
/// (`HALA_INVALID_INDEX` when the map is absent).
#[derive(Debug, Clone, Copy)]
pub struct HalaMaterial {
    pub _type: HalaMaterialType,
    pub base_color: [u32; 3],
    pub opacity: u32,
    pub emission: [u32; 3],
    pub anisotropic: u32,
    pub metallic: u32,
    pub roughness: u32,
    pub subsurface: u32,
    pub specular_tint: u32,
    pub sheen: u32,
    pub sheen_tint: u32,
    pub clearcoat: u32,
    pub clearcoat_roughness: u32,
    pub specular_transmission: u32,
    pub ior: u32,
    pub medium: HalaMedium,
    pub base_color_map_index: u32,
    pub emission_map_index: u32,
    pub normal_map_index: u32,
    pub metallic_roughness_map_index: u32,
}

} // verus!
