//! Canonical primitive shapes.

use vstd::prelude::*;

use crate::vec3_rounded::{Vec3Rounded, GRID_SCALE};

verus! {

/// The corner points of the canonical unit cube.
pub struct CubePoints {}

/// The eight corners of the canonical unit cube, in the fixed order the
/// topology builder expects: the four front corners counterclockwise from
/// the bottom left, then the four back corners in the same order.
pub open spec fn unit_cube_points() -> Seq<Vec3Rounded> {
    seq![
        Vec3Rounded { x: 0, y: 0, z: 0 },
        Vec3Rounded { x: GRID_SCALE, y: 0, z: 0 },
        Vec3Rounded { x: GRID_SCALE, y: GRID_SCALE, z: 0 },
        Vec3Rounded { x: 0, y: GRID_SCALE, z: 0 },
        Vec3Rounded { x: 0, y: 0, z: GRID_SCALE },
        Vec3Rounded { x: GRID_SCALE, y: 0, z: GRID_SCALE },
        Vec3Rounded { x: GRID_SCALE, y: GRID_SCALE, z: GRID_SCALE },
        Vec3Rounded { x: 0, y: GRID_SCALE, z: GRID_SCALE },
    ]
}

impl CubePoints {
    pub fn get_points() -> (ps: Vec<Vec3Rounded>)
        ensures
            ps@ == unit_cube_points(),
            forall|i: int| 0 <= i < ps@.len() ==> (#[trigger] ps@[i]).in_range(),
    {
        let mut ps: Vec<Vec3Rounded> = Vec::new();
        ps.push(Vec3Rounded { x: 0, y: 0, z: 0 });
        ps.push(Vec3Rounded { x: GRID_SCALE, y: 0, z: 0 });
        ps.push(Vec3Rounded { x: GRID_SCALE, y: GRID_SCALE, z: 0 });
        ps.push(Vec3Rounded { x: 0, y: GRID_SCALE, z: 0 });
        ps.push(Vec3Rounded { x: 0, y: 0, z: GRID_SCALE });
        ps.push(Vec3Rounded { x: GRID_SCALE, y: 0, z: GRID_SCALE });
        ps.push(Vec3Rounded { x: GRID_SCALE, y: GRID_SCALE, z: GRID_SCALE });
        ps.push(Vec3Rounded { x: 0, y: GRID_SCALE, z: GRID_SCALE });
        proof {
            assert(ps@ =~= unit_cube_points());
        }
        ps
    }
}

} // verus!
