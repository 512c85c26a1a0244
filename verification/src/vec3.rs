//! Three-component coordinate vectors over fixed-point scalars.

use vstd::prelude::*;

verus! {

use crate::fixed::{Fixed, ADD_LIM};

/// A coordinate: three independent fixed-point components.
#[derive(Clone, Copy, Debug, PartialEq, Eq, Structural)]
pub struct Vector3D {
    pub x: Fixed,
    pub y: Fixed,
    pub z: Fixed,
}

impl Vector3D {
    /// Every component's raw magnitude is at most `b`.
    pub open spec fn bounded(self, b: int) -> bool {
        self.x.bounded(b) && self.y.bounded(b) && self.z.bounded(b)
    }

    /// Create a new vector with components `x`, `y`, `z`.
    pub fn new(x: Fixed, y: Fixed, z: Fixed) -> (r: Vector3D)
        ensures
            r.x == x,
            r.y == y,
            r.z == z,
    {
        Vector3D { x, y, z }
    }

    /// Componentwise exact addition.
    pub fn add(self, o: Vector3D) -> (r: Vector3D)
        requires
            self.bounded(ADD_LIM as int),
            o.bounded(ADD_LIM as int),
        ensures
            r.x.v == self.x.v + o.x.v,
            r.y.v == self.y.v + o.y.v,
            r.z.v == self.z.v + o.z.v,
    {
        Vector3D { x: self.x.add(o.x), y: self.y.add(o.y), z: self.z.add(o.z) }
    }
}

} // verus!
