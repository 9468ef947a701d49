//! Cameras of the CPU scene.

use vstd::prelude::*;
use crate::math::{
    Mat4Bits, mat4_perspective_infinite_reverse_rh, mat4_orthographic_rh,
    spec_infinite_reverse_projection_shape, spec_orthographic_projection_shape,
};
use crate::float_bits::f32_neg;

verus! {

/// A perspective camera with a reverse-Z, infinite-far projection.
#[derive(Debug, Clone, Copy)]
pub struct HalaPerspectiveCamera {
    pub aspect: u32,
    pub yfov: u32,
    pub znear: u32,
    pub zfar: u32,
    pub focal_distance: u32,
    pub aperture: u32,
    pub projection: Mat4Bits,
}

impl HalaPerspectiveCamera {
    /// Build a perspective camera; the projection matrix is the reverse-Z
    /// infinite-far perspective of the given field of view, aspect ratio and
    /// near plane.
    pub fn new(
        aspect: u32,
        yfov: u32,
        znear: u32,
        zfar: u32,
        focal_distance: u32,
        aperture: u32,
    ) -> (r: Self)
        ensures
            r.aspect == aspect,
            r.yfov == yfov,
            r.znear == znear,
            r.zfar == zfar,
            r.focal_distance == focal_distance,
            r.aperture == aperture,
            spec_infinite_reverse_projection_shape(r.projection.e@, znear),
    {
        let projection = mat4_perspective_infinite_reverse_rh(yfov, aspect, znear);
        Self { aspect, yfov, znear, zfar, focal_distance, aperture, projection }
    }
}

/// An orthographic camera.
#[derive(Debug, Clone, Copy)]
pub struct HalaOrthographicCamera {
    pub xmag: u32,
    pub ymag: u32,
    pub orthography: Mat4Bits,
}

impl HalaOrthographicCamera {
    /// Build an orthographic camera; the projection spans `[-xmag, xmag]`
    /// horizontally and `[-ymag, ymag]` vertically.
    pub fn new(xmag: u32, ymag: u32, znear: u32, zfar: u32) -> (r: Self)
        ensures
            r.xmag == xmag,
            r.ymag == ymag,
            spec_orthographic_projection_shape(r.orthography.e@),
    {
        let orthography = mat4_orthographic_rh(
            f32_neg(xmag),
            xmag,
            f32_neg(ymag),
            ymag,
            znear,
            zfar,
        );
        Self { xmag, ymag, orthography }
    }
}

/// A camera of either projection kind.
#[derive(Debug, Clone, Copy)]
pub enum HalaCamera {
    Perspective(HalaPerspectiveCamera),
    Orthographic(HalaOrthographicCamera),
}

/// The projection matrix a camera carries.
pub open spec fn spec_proj_matrix(c: HalaCamera) -> Mat4Bits {
    match c {
        HalaCamera::Perspective(camera) => camera.projection,
        HalaCamera::Orthographic(camera) => camera.orthography,
    }
}

impl HalaCamera {
    /// The camera's precomputed projection matrix.
    pub fn get_proj_matrix(&self) -> (r: Mat4Bits)
        ensures
            r == spec_proj_matrix(*self),
    {
        match self {
            HalaCamera::Perspective(camera) => camera.projection,
            HalaCamera::Orthographic(camera) => camera.orthography,
        }
    }
}

} // verus!
