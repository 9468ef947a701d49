//! Meshes and primitives of the CPU scene.

use vstd::prelude::*;
use crate::scene::vertex::HalaVertex;
use crate::scene::meshlet::HalaMeshlet;

verus! {

/// A primitive: a triangle-list index array over a vertex array, a material
/// reference, and — once the meshlet builder has run — the derived meshlet
/// records with their shared vertex-remap and packed-triangle arrays.
pub struct HalaPrimitive {
    pub indices: Vec<u32>,
    pub vertices: Vec<HalaVertex>,
    pub material_index: u32,
    pub meshlets: Vec<HalaMeshlet>,
    pub meshlet_vertices: Vec<u32>,
    pub meshlet_primitives: Vec<u32>,
}

/// A mesh: a collection of primitives defining one 3D object.
pub struct HalaMesh {
    pub primitives: Vec<HalaPrimitive>,
}

} // verus!
