//! Rays: an origin and a direction.

use vstd::prelude::*;
use crate::vec3::{vadd_s, vscale_s, Vec3};

verus! {

/// A ray through the scene.  The direction is normalized before geometric
/// use; a ray is never mutated, each bounce produces a fresh value.
#[derive(Clone, Copy, Debug, PartialEq, Eq, Structural)]
pub struct Ray {
    pub origin: Vec3,
    pub direction: Vec3,
}

/// The point reached after following the ray for the given distance.
pub open spec fn follow_s(r: Ray, distance: i64) -> Vec3 {
    vadd_s(r.origin, vscale_s(r.direction, distance))
}

impl Ray {
    /// Build a ray from its origin and direction.
    pub fn new(origin: Vec3, direction: Vec3) -> (r: Ray)
        ensures
            r == (Ray { origin, direction }),
    {
        Ray { origin, direction }
    }

    /// The point reached after following the ray for the given distance.
    pub fn follow(&self, distance: i64) -> (p: Vec3)
        ensures
            p == follow_s(*self, distance),
    {
        self.origin.vadd(self.direction.vscale(distance))
    }
}

} // verus!
