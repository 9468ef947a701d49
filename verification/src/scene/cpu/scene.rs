//! The CPU scene: the aggregate a loader produces and the uploader consumes.

use vstd::prelude::*;
use crate::float_bits::{spec_f32_lt, f32_lt};
use crate::math::{Mat4Bits, mat4_mul, spec_mat4_mul, F32_ONE_MINUS_EPSILON};
use crate::scene::cpu::node::HalaNode;
use crate::scene::cpu::mesh::HalaMesh;
use crate::scene::cpu::material::{HalaMaterial, HalaMediumType};
use crate::scene::cpu::image_data::HalaImageData;
use crate::scene::cpu::light::HalaLight;
use crate::scene::cpu::camera::HalaCamera;

verus! {

/// A scene: nodes, meshes, materials, the texture-to-image and
/// image-to-data index mappings, raw image payloads, lights and cameras.
///
/// The mappings are dense index tables keyed by position: entry `t` of
/// `texture2image_mapping` is the image texture `t` samples, and entry `m`
/// of `image2data_mapping` is the decoded payload behind image `m` (loaders
/// number textures and images contiguously, so a lookup past a table's end
/// is exactly the missing-image failure the uploader reports).
pub struct HalaScene {
    pub nodes: Vec<HalaNode>,
    pub meshes: Vec<HalaMesh>,
    pub materials: Vec<HalaMaterial>,
    pub texture2image_mapping: Vec<u32>,
    pub image2data_mapping: Vec<u32>,
    pub image_data: Vec<HalaImageData>,
    pub lights: Vec<HalaLight>,
    pub cameras: Vec<HalaCamera>,
}

/// Every node's parent comes before it in the node array. The single
/// top-down pass of `update_node_hierarchies` propagates parent transforms
/// exactly on hierarchies in this order.
pub open spec fn spec_parents_precede(nodes: Seq<HalaNode>) -> bool {
    forall|i: int|
        0 <= i < nodes.len() ==> match #[trigger] nodes[i].parent {
            Some(p) => p < i,
            None => true,
        }
}

/// The children of node `p` among the first `k` nodes, in node order.
pub open spec fn spec_children_prefix(nodes: Seq<HalaNode>, p: u32, k: int) -> Seq<u32>
    decreases k,
{
    if k <= 0 {
        Seq::empty()
    } else if nodes[k - 1].parent == Some(p) {
        spec_children_prefix(nodes, p, k - 1) + seq![(k - 1) as u32]
    } else {
        spec_children_prefix(nodes, p, k - 1)
    }
}

/// The world transform of node `i`: its parent's world transform times its
/// local transform, or the local transform alone at a root. A parent
/// reference that does not precede its child is ignored, as the top-down
/// pass would read an uninitialized slot there.
pub open spec fn spec_world_transform(nodes: Seq<HalaNode>, i: int) -> Seq<u32>
    decreases i,
{
    match nodes[i].parent {
        Some(p) => {
            if 0 <= p < i {
                spec_mat4_mul(spec_world_transform(nodes, p as int), nodes[i].local_transform.e@)
            } else {
                nodes[i].local_transform.e@
            }
        },
        None => nodes[i].local_transform.e@,
    }
}

impl HalaScene {
    /// Whether the scene has any light.
    pub fn has_light(&self) -> (r: bool)
        ensures
            r == (self.lights@.len() > 0),
    {
        self.lights.len() > 0
    }

    /// Whether any material carries a participating medium.
    pub fn has_medium(&self) -> (r: bool)
        ensures
            r == exists|i: int|
                0 <= i < self.materials@.len() && (#[trigger] self.materials@[i].medium._type)
                    != HalaMediumType::NoMedium,
    {
        let n = self.materials.len();
        let mut i: usize = 0;
        while i < n
            invariant
                i <= n,
                n == self.materials@.len(),
                forall|j: int|
                    0 <= j < i ==> (#[trigger] self.materials@[j].medium._type)
                        == HalaMediumType::NoMedium,
            decreases n - i,
        {
            if !matches!(self.materials[i].medium._type, HalaMediumType::NoMedium) {
                return true;
            }
            i = i + 1;
        }
        false
    }

    /// Whether any material carries a medium of the given kind.
    pub fn has_medium_with(&self, medium_type: HalaMediumType) -> (r: bool)
        ensures
            r == exists|i: int|
                0 <= i < self.materials@.len() && (#[trigger] self.materials@[i].medium._type)
                    == medium_type,
    {
        let n = self.materials.len();
        let mut i: usize = 0;
        while i < n
            invariant
                i <= n,
                n == self.materials@.len(),
                forall|j: int|
                    0 <= j < i ==> (#[trigger] self.materials@[j].medium._type) != medium_type,
            decreases n - i,
        {
            if self.materials[i].medium._type == medium_type {
                return true;
            }
            i = i + 1;
        }
        false
    }

    /// Whether any material is transparent: its opacity lies below
    /// `1 - epsilon`.
    pub fn has_transparent(&self) -> (r: bool)
        ensures
            r == exists|i: int|
                0 <= i < self.materials@.len() && spec_f32_lt(
                    (#[trigger] self.materials@[i]).opacity,
                    F32_ONE_MINUS_EPSILON,
                ),
    {
        let n = self.materials.len();
        let mut i: usize = 0;
        while i < n
            invariant
                i <= n,
                n == self.materials@.len(),
                forall|j: int|
                    0 <= j < i ==> !spec_f32_lt(
                        (#[trigger] self.materials@[j]).opacity,
                        F32_ONE_MINUS_EPSILON,
                    ),
            decreases n - i,
        {
            if f32_lt(self.materials[i].opacity, F32_ONE_MINUS_EPSILON) {
                return true;
            }
            i = i + 1;
        }
        false
    }

    /// Recompute each node's children list and world transform from the
    /// parent references and local transforms, in one top-down pass over the
    /// node array: a child whose parent precedes it receives its parent's
    /// world transform times its own local transform. A parent reference
    /// that does not precede its node (the hierarchy is then not in
    /// top-down order, or the reference is out of range) contributes
    /// nothing, and the node keeps its local transform; the propagation law
    /// of the last postcondition is therefore guaranteed exactly for
    /// hierarchies whose parents precede their children. (On a hierarchy
    /// with a parent cycle no assignment could satisfy that law at all.)
    pub fn update_node_hierarchies(&mut self)
        requires
            old(self).nodes@.len() < 0xFFFF_FFFF,
        ensures
            final(self).nodes@.len() == old(self).nodes@.len(),
            final(self).meshes == old(self).meshes,
            final(self).materials == old(self).materials,
            final(self).texture2image_mapping == old(self).texture2image_mapping,
            final(self).image2data_mapping == old(self).image2data_mapping,
            final(self).image_data == old(self).image_data,
            final(self).lights == old(self).lights,
            final(self).cameras == old(self).cameras,
            forall|i: int|
                0 <= i < old(self).nodes@.len() ==> {
                    let n0 = old(self).nodes@[i];
                    let n1 = #[trigger] final(self).nodes@[i];
                    n1.name == n0.name && n1.parent == n0.parent && n1.local_transform
                        == n0.local_transform && n1.mesh_index == n0.mesh_index && n1.camera_index
                        == n0.camera_index && n1.light_index == n0.light_index
                        && n1.world_transform.e@ == spec_world_transform(old(self).nodes@, i)
                        && n1.children@ == spec_children_prefix(
                        old(self).nodes@,
                        i as u32,
                        old(self).nodes@.len() as int,
                    )
                },
            spec_parents_precede(old(self).nodes@) ==> forall|i: int|
                0 <= i < final(self).nodes@.len() ==> {
                    let n1 = #[trigger] final(self).nodes@[i];
                    match n1.parent {
                        Some(p) => n1.world_transform.e@ == spec_mat4_mul(
                            final(self).nodes@[p as int].world_transform.e@,
                            n1.local_transform.e@,
                        ),
                        None => n1.world_transform.e@ == n1.local_transform.e@,
                    }
                },
    {
        let n = self.nodes.len();

        let mut temp_children: Vec<Vec<u32>> = Vec::new();
        let mut p: usize = 0;
        while p < n
            invariant
                p <= n,
                n == self.nodes@.len(),
                n < 0xFFFF_FFFF,
                *self == *old(self),
                temp_children@.len() == p,
                forall|q: int|
                    0 <= q < p ==> (#[trigger] temp_children@[q])@ == spec_children_prefix(
                        self.nodes@,
                        q as u32,
                        n as int,
                    ),
            decreases n - p,
        {
            let mut c: Vec<u32> = Vec::new();
            let mut i: usize = 0;
            while i < n
                invariant
                    i <= n,
                    p < n,
                    n == self.nodes@.len(),
                    n < 0xFFFF_FFFF,
                    *self == *old(self),
                    c@ == spec_children_prefix(self.nodes@, p as u32, i as int),
                decreases n - i,
            {
                if self.nodes[i].parent == Some(p as u32) {
                    c.push(i as u32);
                }
                i = i + 1;
                proof {
                    if self.nodes@[i - 1].parent == Some(p as u32) {
                        assert(c@ =~= spec_children_prefix(self.nodes@, p as u32, i - 1) + seq![
                            (i - 1) as u32,
                        ]);
                    }
                }
            }
            temp_children.push(c);
            p = p + 1;
        }

        let mut temp_world: Vec<Mat4Bits> = Vec::new();
        let mut idx: usize = 0;
        while idx < n
            invariant
                idx <= n,
                n == self.nodes@.len(),
                *self == *old(self),
                temp_world@.len() == idx,
                forall|j: int|
                    0 <= j < idx ==> (#[trigger] temp_world@[j]).e@ == spec_world_transform(
                        self.nodes@,
                        j,
                    ),
            decreases n - idx,
        {
            let parent = self.nodes[idx].parent;
            match parent {
                Some(pr) => {
                    let pu = pr as usize;
                    if pu < idx {
                        let w = mat4_mul(&temp_world[pu], &self.nodes[idx].local_transform);
                        temp_world.push(w);
                    } else {
                        let local = self.nodes[idx].local_transform;
                        temp_world.push(local);
                    }
                },
                None => {
                    let local = self.nodes[idx].local_transform;
                    temp_world.push(local);
                },
            }
            idx = idx + 1;
            proof {
                assert(temp_world@[idx - 1].e@ == spec_world_transform(self.nodes@, idx - 1));
            }
        }

        let mut i2: usize = 0;
        while i2 < n
            invariant
                i2 <= n,
                n == old(self).nodes@.len(),
                self.nodes@.len() == n,
                self.meshes == old(self).meshes,
                self.materials == old(self).materials,
                self.texture2image_mapping == old(self).texture2image_mapping,
                self.image2data_mapping == old(self).image2data_mapping,
                self.image_data == old(self).image_data,
                self.lights == old(self).lights,
                self.cameras == old(self).cameras,
                temp_world@.len() == n,
                forall|j: int|
                    0 <= j < n ==> (#[trigger] temp_world@[j]).e@ == spec_world_transform(
                        old(self).nodes@,
                        j,
                    ),
                temp_children@.len() == n,
                forall|q: int|
                    0 <= q < n ==> (#[trigger] temp_children@[q])@ == spec_children_prefix(
                        old(self).nodes@,
                        q as u32,
                        n as int,
                    ),
                forall|j: int| i2 <= j < n ==> #[trigger] self.nodes@[j] == old(self).nodes@[j],
                forall|j: int|
                    0 <= j < i2 ==> {
                        let n0 = old(self).nodes@[j];
                        let n1 = #[trigger] self.nodes@[j];
                        n1.name == n0.name && n1.parent == n0.parent && n1.local_transform
                            == n0.local_transform && n1.mesh_index == n0.mesh_index
                            && n1.camera_index == n0.camera_index && n1.light_index
                            == n0.light_index && n1.world_transform.e@ == spec_world_transform(
                            old(self).nodes@,
                            j,
                        ) && n1.children@ == spec_children_prefix(
                            old(self).nodes@,
                            j as u32,
                            n as int,
                        )
                    },
            decreases n - i2,
        {
            self.nodes[i2].children = temp_children[i2].clone();
            self.nodes[i2].world_transform = temp_world[i2];
            i2 = i2 + 1;
        }

        proof {
            if spec_parents_precede(old(self).nodes@) {
                assert forall|i: int| 0 <= i < final(self).nodes@.len() implies {
                    let n1 = #[trigger] final(self).nodes@[i];
                    match n1.parent {
                        Some(p) => n1.world_transform.e@ == spec_mat4_mul(
                            final(self).nodes@[p as int].world_transform.e@,
                            n1.local_transform.e@,
                        ),
                        None => n1.world_transform.e@ == n1.local_transform.e@,
                    }
                } by {
                    let n1 = final(self).nodes@[i];
                    match old(self).nodes@[i].parent {
                        Some(p) => {
                            assert(p < i);
                            assert(spec_world_transform(old(self).nodes@, i) == spec_mat4_mul(
                                spec_world_transform(old(self).nodes@, p as int),
                                old(self).nodes@[i].local_transform.e@,
                            ));
                        },
                        None => {},
                    }
                }
            }
        }
    }
}

} // verus!
