//! Three-component fixed-point vectors.
//!
//! Components are 16.16 fixed-point scalars; every operation is the
//! component-wise (or bilinear) combination of the scalar operations of
//! `crate::fx`, and is pinned to a spec-level mirror.

use vstd::prelude::*;
use crate::fx::{
    fx_add, fx_add_s, fx_div, fx_div_s, fx_mul, fx_mul_s, fx_sqrt, fx_sqrt_s, fx_sub, fx_sub_s,
};

verus! {

/// A vector of three 16.16 fixed-point scalars.
#[derive(Clone, Copy, Debug, PartialEq, Eq, Structural)]
pub struct Vec3 {
    pub x: i64,
    pub y: i64,
    pub z: i64,
}

/// The zero vector.
pub open spec fn vzero_s() -> Vec3 {
    Vec3 { x: 0, y: 0, z: 0 }
}

/// The all-ones vector (fixed-point 1 in each component).
pub open spec fn vone_s() -> Vec3 {
    Vec3 { x: 65536, y: 65536, z: 65536 }
}

/// Component-wise saturating sum.
pub open spec fn vadd_s(a: Vec3, b: Vec3) -> Vec3 {
    Vec3 { x: fx_add_s(a.x, b.x), y: fx_add_s(a.y, b.y), z: fx_add_s(a.z, b.z) }
}

/// Component-wise saturating difference.
pub open spec fn vsub_s(a: Vec3, b: Vec3) -> Vec3 {
    Vec3 { x: fx_sub_s(a.x, b.x), y: fx_sub_s(a.y, b.y), z: fx_sub_s(a.z, b.z) }
}

/// Scaling by a fixed-point scalar.
pub open spec fn vscale_s(a: Vec3, s: i64) -> Vec3 {
    Vec3 { x: fx_mul_s(a.x, s), y: fx_mul_s(a.y, s), z: fx_mul_s(a.z, s) }
}

/// Component-wise product.
pub open spec fn vmul_s(a: Vec3, b: Vec3) -> Vec3 {
    Vec3 { x: fx_mul_s(a.x, b.x), y: fx_mul_s(a.y, b.y), z: fx_mul_s(a.z, b.z) }
}

/// Dot product (fixed-point products, saturating sums).
pub open spec fn dot_s(a: Vec3, b: Vec3) -> i64 {
    fx_add_s(fx_add_s(fx_mul_s(a.x, b.x), fx_mul_s(a.y, b.y)), fx_mul_s(a.z, b.z))
}

/// Cross product.
pub open spec fn cross_s(a: Vec3, b: Vec3) -> Vec3 {
    Vec3 {
        x: fx_sub_s(fx_mul_s(a.y, b.z), fx_mul_s(a.z, b.y)),
        y: fx_sub_s(fx_mul_s(a.z, b.x), fx_mul_s(a.x, b.z)),
        z: fx_sub_s(fx_mul_s(a.x, b.y), fx_mul_s(a.y, b.x)),
    }
}

/// Linear interpolation from `a` to `b` by factor `t`.
pub open spec fn lerp_s(a: Vec3, b: Vec3, t: i64) -> Vec3 {
    Vec3 {
        x: fx_add_s(a.x, fx_mul_s(fx_sub_s(b.x, a.x), t)),
        y: fx_add_s(a.y, fx_mul_s(fx_sub_s(b.y, a.y), t)),
        z: fx_add_s(a.z, fx_mul_s(fx_sub_s(b.z, a.z), t)),
    }
}

/// Normalization: each component divided by the fixed-point length; the zero
/// vector (whose length is zero) normalizes to itself.
pub open spec fn normalize_s(a: Vec3) -> Vec3 {
    let len: i64 = fx_sqrt_s(dot_s(a, a));
    if len == 0 {
        vzero_s()
    } else {
        Vec3 { x: fx_div_s(a.x, len), y: fx_div_s(a.y, len), z: fx_div_s(a.z, len) }
    }
}

impl Vec3 {
    /// Build a vector from its components.
    pub fn new(x: i64, y: i64, z: i64) -> (r: Vec3)
        ensures
            r == (Vec3 { x, y, z }),
    {
        Vec3 { x, y, z }
    }

    /// The zero vector.
    pub fn zero() -> (r: Vec3)
        ensures
            r == vzero_s(),
    {
        Vec3 { x: 0, y: 0, z: 0 }
    }

    /// The all-ones vector.
    pub fn one() -> (r: Vec3)
        ensures
            r == vone_s(),
    {
        Vec3 { x: 65536, y: 65536, z: 65536 }
    }

    /// Component-wise saturating sum.
    pub fn vadd(self, o: Vec3) -> (r: Vec3)
        ensures
            r == vadd_s(self, o),
    {
        Vec3 { x: fx_add(self.x, o.x), y: fx_add(self.y, o.y), z: fx_add(self.z, o.z) }
    }

    /// Component-wise saturating difference.
    pub fn vsub(self, o: Vec3) -> (r: Vec3)
        ensures
            r == vsub_s(self, o),
    {
        Vec3 { x: fx_sub(self.x, o.x), y: fx_sub(self.y, o.y), z: fx_sub(self.z, o.z) }
    }

    /// Scaling by a fixed-point scalar.
    pub fn vscale(self, s: i64) -> (r: Vec3)
        ensures
            r == vscale_s(self, s),
    {
        Vec3 { x: fx_mul(self.x, s), y: fx_mul(self.y, s), z: fx_mul(self.z, s) }
    }

    /// Component-wise product.
    pub fn vmul(self, o: Vec3) -> (r: Vec3)
        ensures
            r == vmul_s(self, o),
    {
        Vec3 { x: fx_mul(self.x, o.x), y: fx_mul(self.y, o.y), z: fx_mul(self.z, o.z) }
    }

    /// Dot product.
    pub fn dot(self, o: Vec3) -> (r: i64)
        ensures
            r == dot_s(self, o),
    {
        fx_add(fx_add(fx_mul(self.x, o.x), fx_mul(self.y, o.y)), fx_mul(self.z, o.z))
    }

    /// Cross product.
    pub fn cross(self, o: Vec3) -> (r: Vec3)
        ensures
            r == cross_s(self, o),
    {
        Vec3 {
            x: fx_sub(fx_mul(self.y, o.z), fx_mul(self.z, o.y)),
            y: fx_sub(fx_mul(self.z, o.x), fx_mul(self.x, o.z)),
            z: fx_sub(fx_mul(self.x, o.y), fx_mul(self.y, o.x)),
        }
    }

    /// Squared length.
    pub fn length_squared(self) -> (r: i64)
        ensures
            r == dot_s(self, self),
    {
        self.dot(self)
    }

    /// Linear interpolation from `self` to `o` by factor `t`.
    pub fn lerp(self, o: Vec3, t: i64) -> (r: Vec3)
        ensures
            r == lerp_s(self, o, t),
    {
        Vec3 {
            x: fx_add(self.x, fx_mul(fx_sub(o.x, self.x), t)),
            y: fx_add(self.y, fx_mul(fx_sub(o.y, self.y), t)),
            z: fx_add(self.z, fx_mul(fx_sub(o.z, self.z), t)),
        }
    }

    /// Normalization; the zero vector stays zero.
    pub fn normalize(self) -> (r: Vec3)
        ensures
            r == normalize_s(self),
    {
        let len: i64 = fx_sqrt(self.dot(self));
        if len == 0 {
            Vec3 { x: 0, y: 0, z: 0 }
        } else {
            Vec3 { x: fx_div(self.x, len), y: fx_div(self.y, len), z: fx_div(self.z, len) }
        }
    }
}

} // verus!
