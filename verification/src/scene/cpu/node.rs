//! A node of the scene hierarchy.

use vstd::prelude::*;
use crate::math::{Mat4Bits, spec_mat4_identity};

verus! {

/// The sentinel meaning "no mesh / camera / light reference".
pub const HALA_INVALID_INDEX: u32 = 0xFFFF_FFFF;

/// A node: a name, its place in the hierarchy, a local and a derived world
/// transform, and optional back-references into the scene's mesh, camera and
/// light arrays (`HALA_INVALID_INDEX` when absent).
pub struct HalaNode {
    pub name: String,
    pub parent: Option<u32>,
    pub children: Vec<u32>,
    pub local_transform: Mat4Bits,
    pub world_transform: Mat4Bits,
    pub mesh_index: u32,
    pub camera_index: u32,
    pub light_index: u32,
}

impl Default for HalaNode {
    /// A root node with identity transforms and no references.
    fn default() -> (r: Self)
        ensures
            r.name@ == Seq::<char>::empty(),
            r.parent is None,
            r.children@ == Seq::<u32>::empty(),
            r.local_transform.e@ == spec_mat4_identity(),
            r.world_transform.e@ == spec_mat4_identity(),
            r.mesh_index == HALA_INVALID_INDEX,
            r.camera_index == HALA_INVALID_INDEX,
            r.light_index == HALA_INVALID_INDEX,
    {
        Self {
            name: String::new(),
            parent: None,
            children: Vec::new(),
            local_transform: Mat4Bits::identity(),
            world_transform: Mat4Bits::identity(),
            mesh_index: HALA_INVALID_INDEX,
            camera_index: HALA_INVALID_INDEX,
            light_index: HALA_INVALID_INDEX,
        }
    }
}

} // verus!
