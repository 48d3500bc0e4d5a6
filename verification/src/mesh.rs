//! Visual primitive records kept by the library: an axis-aligned box kept
//! as its corner bounds. The host turns these into whatever mesh form its
//! renderer wants.

use vstd::prelude::*;

use crate::fx::Fx;
use crate::serialize::{MeshDef, MeshTypeDef};

verus! {

/// An axis-aligned box by its corner bounds.
#[derive(Clone, Copy, Debug, PartialEq, Eq, Structural)]
pub struct BoxMesh {
    pub min_x: Fx,
    pub max_x: Fx,
    pub min_y: Fx,
    pub max_y: Fx,
    pub min_z: Fx,
    pub max_z: Fx,
}

impl BoxMesh {
    pub fn new(min_x: Fx, max_x: Fx, min_y: Fx, max_y: Fx, min_z: Fx, max_z: Fx) -> (r: BoxMesh)
        ensures
            r.min_x == min_x,
            r.max_x == max_x,
            r.min_y == min_y,
            r.max_y == max_y,
            r.min_z == min_z,
            r.max_z == max_z,
    {
        BoxMesh { min_x, max_x, min_y, max_y, min_z, max_z }
    }
}

/// The mesh shapes the library itself can hold.
#[derive(Clone, Copy, Debug, PartialEq, Eq, Structural)]
pub enum Mesh {
    Box(BoxMesh),
}

impl Mesh {
    /// Build a mesh from a visual-primitive record. Only box primitives
    /// have a library-side mesh form; other shapes belong to the host's
    /// renderer.
    pub fn from_mesh_def(mesh_def: &MeshDef) -> (r: Mesh)
        requires
            mesh_def.mesh_type is Box,
        ensures
            (match mesh_def.mesh_type {
                MeshTypeDef::Box { half_extents } => (match r {
                    Mesh::Box(b) => {
                        &&& b.max_x == half_extents.x
                        &&& b.max_y == half_extents.y
                        &&& b.max_z == half_extents.z
                        &&& b.min_x@ == crate::fx::fx_neg(half_extents.x@)
                        &&& b.min_y@ == crate::fx::fx_neg(half_extents.y@)
                        &&& b.min_z@ == crate::fx::fx_neg(half_extents.z@)
                    },
                }),
                _ => true,
            }),
    {
        match mesh_def.mesh_type {
            MeshTypeDef::Box { half_extents } => Mesh::Box(
                BoxMesh {
                    min_x: half_extents.x.neg(),
                    max_x: half_extents.x,
                    min_y: half_extents.y.neg(),
                    max_y: half_extents.y,
                    min_z: half_extents.z.neg(),
                    max_z: half_extents.z,
                },
            ),
            MeshTypeDef::Cylinder { .. } => vstd::pervasive::unreached(),
        }
    }
}

} // verus!
