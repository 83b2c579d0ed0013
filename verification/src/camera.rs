//! The camera: pixel-to-ray mapping and the view transform.
//!
//! The camera holds a field of view in degrees, a world position and an
//! orientation quaternion, and derives its view transform on demand.  The
//! view-plane height comes from the tangent of half the field of view,
//! computed here by fixed-point Taylor polynomials so that the whole mapping
//! stays a total, deterministic function of its inputs.

use vstd::prelude::*;
use crate::fx::{
    fx_add, fx_add_s, fx_div, fx_div_s, fx_mul, fx_mul_s, fx_sqrt_s, fx_sub, fx_sub_s, mag,
    FX_HALF, FX_ONE, FX_TWO,
};
use crate::ray::Ray;
use crate::vec3::{cross_s, dot_s, normalize_s, vadd_s, vscale_s, vsub_s, vzero_s, Vec3};

verus! {

/// Fixed-point value of pi / 180, rounded to nearest.
pub const RADIANS_PER_DEGREE: i64 = 1144;

/// A rotation quaternion with fixed-point components.
#[derive(Clone, Copy, Debug, PartialEq, Eq, Structural)]
pub struct Quat {
    pub x: i64,
    pub y: i64,
    pub z: i64,
    pub w: i64,
}

/// A 3x3 matrix held as three column vectors.
#[derive(Clone, Copy, Debug, PartialEq, Eq, Structural)]
pub struct Mat3 {
    pub x_axis: Vec3,
    pub y_axis: Vec3,
    pub z_axis: Vec3,
}

/// An affine transform: a linear part and a translation.
#[derive(Clone, Copy, Debug, PartialEq, Eq, Structural)]
pub struct Transform {
    pub matrix: Mat3,
    pub translation: Vec3,
}

/// The identity quaternion.
pub open spec fn quat_identity_s() -> Quat {
    Quat { x: 0, y: 0, z: 0, w: 65536 }
}

/// The rotation matrix of a quaternion.
pub open spec fn mat3_from_quat_s(q: Quat) -> Mat3 {
    let x2: i64 = fx_add_s(q.x, q.x);
    let y2: i64 = fx_add_s(q.y, q.y);
    let z2: i64 = fx_add_s(q.z, q.z);
    let xx: i64 = fx_mul_s(q.x, x2);
    let xy: i64 = fx_mul_s(q.x, y2);
    let xz: i64 = fx_mul_s(q.x, z2);
    let yy: i64 = fx_mul_s(q.y, y2);
    let yz: i64 = fx_mul_s(q.y, z2);
    let zz: i64 = fx_mul_s(q.z, z2);
    let wx: i64 = fx_mul_s(q.w, x2);
    let wy: i64 = fx_mul_s(q.w, y2);
    let wz: i64 = fx_mul_s(q.w, z2);
    Mat3 {
        x_axis: Vec3 {
            x: fx_sub_s(FX_ONE, fx_add_s(yy, zz)),
            y: fx_add_s(xy, wz),
            z: fx_sub_s(xz, wy),
        },
        y_axis: Vec3 {
            x: fx_sub_s(xy, wz),
            y: fx_sub_s(FX_ONE, fx_add_s(xx, zz)),
            z: fx_add_s(yz, wx),
        },
        z_axis: Vec3 {
            x: fx_add_s(xz, wy),
            y: fx_sub_s(yz, wx),
            z: fx_sub_s(FX_ONE, fx_add_s(xx, yy)),
        },
    }
}

/// Application of the linear part alone.
pub open spec fn mat3_apply_s(m: Mat3, p: Vec3) -> Vec3 {
    vadd_s(vadd_s(vscale_s(m.x_axis, p.x), vscale_s(m.y_axis, p.y)), vscale_s(m.z_axis, p.z))
}

/// The determinant of a column matrix: the triple product of its columns.
pub open spec fn mat3_det_s(m: Mat3) -> i64 {
    dot_s(m.x_axis, cross_s(m.y_axis, m.z_axis))
}

/// The inverse by the adjugate: rows are the cross products of column pairs,
/// scaled by the reciprocal determinant (zero when the determinant is zero,
/// as fixed-point division by zero is zero).
pub open spec fn mat3_inverse_s(m: Mat3) -> Mat3 {
    let r0: Vec3 = cross_s(m.y_axis, m.z_axis);
    let r1: Vec3 = cross_s(m.z_axis, m.x_axis);
    let r2: Vec3 = cross_s(m.x_axis, m.y_axis);
    let inv_det: i64 = fx_div_s(FX_ONE, mat3_det_s(m));
    Mat3 {
        x_axis: Vec3 {
            x: fx_mul_s(r0.x, inv_det),
            y: fx_mul_s(r1.x, inv_det),
            z: fx_mul_s(r2.x, inv_det),
        },
        y_axis: Vec3 {
            x: fx_mul_s(r0.y, inv_det),
            y: fx_mul_s(r1.y, inv_det),
            z: fx_mul_s(r2.y, inv_det),
        },
        z_axis: Vec3 {
            x: fx_mul_s(r0.z, inv_det),
            y: fx_mul_s(r1.z, inv_det),
            z: fx_mul_s(r2.z, inv_det),
        },
    }
}

/// Application of an affine transform to a point.
pub open spec fn transform_point_s(t: Transform, p: Vec3) -> Vec3 {
    vadd_s(mat3_apply_s(t.matrix, p), t.translation)
}

/// Sine by the Taylor polynomial of degree seven.
pub open spec fn fx_sin_s(x: i64) -> i64 {
    let x2: i64 = fx_mul_s(x, x);
    let x3: i64 = fx_mul_s(x2, x);
    let x5: i64 = fx_mul_s(x3, x2);
    let x7: i64 = fx_mul_s(x5, x2);
    fx_sub_s(fx_add_s(fx_sub_s(x, fx_div_s(x3, 393216)), fx_div_s(x5, 7864320)), fx_div_s(x7, 330301440))
}

/// Cosine by the Taylor polynomial of degree six.
pub open spec fn fx_cos_s(x: i64) -> i64 {
    let x2: i64 = fx_mul_s(x, x);
    let x4: i64 = fx_mul_s(x2, x2);
    let x6: i64 = fx_mul_s(x4, x2);
    fx_sub_s(fx_add_s(fx_sub_s(FX_ONE, fx_div_s(x2, FX_TWO)), fx_div_s(x4, 1572864)), fx_div_s(x6, 47185920))
}

/// Tangent: the quotient of the two polynomials.
pub open spec fn fx_tan_s(x: i64) -> i64 {
    fx_div_s(fx_sin_s(x), fx_cos_s(x))
}

/// Sine by the Taylor polynomial of degree seven.
pub fn fx_sin(x: i64) -> (r: i64)
    ensures
        r == fx_sin_s(x),
{
    let x2: i64 = fx_mul(x, x);
    let x3: i64 = fx_mul(x2, x);
    let x5: i64 = fx_mul(x3, x2);
    let x7: i64 = fx_mul(x5, x2);
    fx_sub(fx_add(fx_sub(x, fx_div(x3, 393216)), fx_div(x5, 7864320)), fx_div(x7, 330301440))
}

/// Cosine by the Taylor polynomial of degree six.
pub fn fx_cos(x: i64) -> (r: i64)
    ensures
        r == fx_cos_s(x),
{
    let x2: i64 = fx_mul(x, x);
    let x4: i64 = fx_mul(x2, x2);
    let x6: i64 = fx_mul(x4, x2);
    fx_sub(fx_add(fx_sub(FX_ONE, fx_div(x2, FX_TWO)), fx_div(x4, 1572864)), fx_div(x6, 47185920))
}

/// Tangent: the quotient of the two polynomials.
pub fn fx_tan(x: i64) -> (r: i64)
    ensures
        r == fx_tan_s(x),
{
    fx_div(fx_sin(x), fx_cos(x))
}

/// The view camera: immutable for the duration of a render.
#[derive(Clone, Copy, Debug, PartialEq, Eq, Structural)]
pub struct Camera {
    /// Field of view in fixed-point degrees.
    pub field_of_view: i64,
    pub position: Vec3,
    pub rotation: Quat,
}

/// The camera-to-world transform: rotation then translation.
pub open spec fn local_to_world_s(cam: Camera) -> Transform {
    Transform { matrix: mat3_from_quat_s(cam.rotation), translation: cam.position }
}

/// The world-to-camera transform: the inverse of the camera-to-world one.
pub open spec fn world_to_local_s(cam: Camera) -> Transform {
    let inv: Mat3 = mat3_inverse_s(mat3_from_quat_s(cam.rotation));
    Transform {
        matrix: inv,
        translation: vsub_s(vzero_s(), mat3_apply_s(inv, cam.position)),
    }
}

/// The height of the view plane at unit distance: twice the tangent of half
/// the field of view.
pub open spec fn plane_height_s(field_of_view: i64) -> i64 {
    fx_mul_s(fx_tan_s(fx_mul_s(fx_div_s(field_of_view, FX_TWO), RADIANS_PER_DEGREE)), FX_TWO)
}

/// The camera ray of a (jittered) pixel coordinate: the pixel is normalized
/// to [-1/2, 1/2]^2, placed on the view plane at unit local depth, carried
/// to world space, and aimed at from the camera position.
pub open spec fn get_ray_s(cam: Camera, x: i64, y: i64, width: u32, height: u32) -> Ray {
    let w_fx: i64 = ((width as int) * 65536) as i64;
    let h_fx: i64 = ((height as int) * 65536) as i64;
    let u: i64 = fx_sub_s(fx_div_s(x, w_fx), FX_HALF);
    let v: i64 = fx_sub_s(fx_div_s(y, h_fx), FX_HALF);
    let aspect: i64 = fx_div_s(w_fx, h_fx);
    let plane_h: i64 = plane_height_s(cam.field_of_view);
    let plane_w: i64 = fx_mul_s(plane_h, aspect);
    let local: Vec3 = Vec3 { x: fx_mul_s(u, plane_w), y: fx_mul_s(v, plane_h), z: FX_ONE };
    let world_point: Vec3 = transform_point_s(local_to_world_s(cam), local);
    Ray { origin: cam.position, direction: normalize_s(vsub_s(world_point, cam.position)) }
}

/// The ray at the exact image center, under the identity rotation, points
/// along the camera's local +Z axis in world space.
pub proof fn lemma_center_ray_points_forward(cam: Camera, width: u32, height: u32)
    requires
        cam.rotation == quat_identity_s(),
        1 <= width,
        1 <= height,
        cam.position.z + 65536 <= i64::MAX,
    ensures
        ({
            let center: Ray = get_ray_s(
                cam,
                ((width as int) * 32768) as i64,
                ((height as int) * 32768) as i64,
                width,
                height,
            );
            center.origin == cam.position && center.direction == (Vec3 { x: 0, y: 0, z: 65536 })
        }),
{
    let w: int = width as int;
    let h: int = height as int;
    let x: i64 = (w * 32768) as i64;
    let y: i64 = (h * 32768) as i64;
    let w_fx: i64 = (w * 65536) as i64;
    let h_fx: i64 = (h * 65536) as i64;
    assert((w * 32768) * 65536 == 32768 * (w * 65536)) by (nonlinear_arith);
    assert((h * 32768) * 65536 == 32768 * (h * 65536)) by (nonlinear_arith);
    vstd::arithmetic::div_mod::lemma_div_by_multiple(32768, w * 65536);
    vstd::arithmetic::div_mod::lemma_div_by_multiple(32768, h * 65536);
    assert(mag(x as int) == w * 32768);
    assert(mag(w_fx as int) == w * 65536);
    assert(fx_div_s(x, w_fx) == FX_HALF);
    assert(fx_div_s(y, h_fx) == FX_HALF);
    assert(fx_sub_s(fx_div_s(x, w_fx), FX_HALF) == 0);
    let m: Mat3 = mat3_from_quat_s(quat_identity_s());
    crate::fx::lemma_fx_mul_zero(0);
    crate::fx::lemma_fx_mul_zero(65536);
    assert(m == (Mat3 {
        x_axis: Vec3 { x: 65536, y: 0, z: 0 },
        y_axis: Vec3 { x: 0, y: 65536, z: 0 },
        z_axis: Vec3 { x: 0, y: 0, z: 65536 },
    }));
    let plane_h: i64 = plane_height_s(cam.field_of_view);
    let plane_w: i64 = fx_mul_s(plane_h, fx_div_s(w_fx, h_fx));
    crate::fx::lemma_fx_mul_zero(plane_w);
    crate::fx::lemma_fx_mul_zero(plane_h);
    let local: Vec3 = Vec3 { x: 0, y: 0, z: FX_ONE };
    crate::fx::lemma_fx_mul_one(FX_ONE);
    assert(mat3_apply_s(m, local) == (Vec3 { x: 0, y: 0, z: 65536 }));
    let moved: Vec3 = transform_point_s(local_to_world_s(cam), local);
    assert(moved == (Vec3 {
        x: cam.position.x,
        y: cam.position.y,
        z: (cam.position.z + 65536) as i64,
    }));
    let dir: Vec3 = vsub_s(moved, cam.position);
    assert(dir == (Vec3 { x: 0, y: 0, z: 65536 }));
    assert(dot_s(dir, dir) == 65536);
    assert(65536int * 65536int == 4294967296int);
    crate::fx::lemma_sqrt_unique(4294967296int, 65536int);
    assert(fx_sqrt_s(65536) == 65536);
    crate::fx::lemma_fx_div_nonneg(0, 65536);
    assert(mag(0int) == 0int);
    assert(0int * 65536int == 0int);
    assert(fx_div_s(0, 65536) == 0);
    vstd::arithmetic::div_mod::lemma_div_by_multiple(65536int, 65536int);
    assert((65536int * 65536int) / 65536int == 65536int);
    assert(fx_div_s(65536, 65536) == 65536);
    assert(normalize_s(dir) == (Vec3 { x: 0, y: 0, z: 65536 }));
}

impl Quat {
    /// Build a quaternion from its components.
    pub fn new(x: i64, y: i64, z: i64, w: i64) -> (r: Quat)
        ensures
            r == (Quat { x, y, z, w }),
    {
        Quat { x, y, z, w }
    }

    /// The identity rotation.
    pub fn identity() -> (r: Quat)
        ensures
            r == quat_identity_s(),
    {
        Quat { x: 0, y: 0, z: 0, w: 65536 }
    }
}

/// The rotation matrix of a quaternion.
fn mat3_from_quat(q: Quat) -> (r: Mat3)
    ensures
        r == mat3_from_quat_s(q),
{
    let x2: i64 = fx_add(q.x, q.x);
    let y2: i64 = fx_add(q.y, q.y);
    let z2: i64 = fx_add(q.z, q.z);
    let xx: i64 = fx_mul(q.x, x2);
    let xy: i64 = fx_mul(q.x, y2);
    let xz: i64 = fx_mul(q.x, z2);
    let yy: i64 = fx_mul(q.y, y2);
    let yz: i64 = fx_mul(q.y, z2);
    let zz: i64 = fx_mul(q.z, z2);
    let wx: i64 = fx_mul(q.w, x2);
    let wy: i64 = fx_mul(q.w, y2);
    let wz: i64 = fx_mul(q.w, z2);
    Mat3 {
        x_axis: Vec3 {
            x: fx_sub(FX_ONE, fx_add(yy, zz)),
            y: fx_add(xy, wz),
            z: fx_sub(xz, wy),
        },
        y_axis: Vec3 {
            x: fx_sub(xy, wz),
            y: fx_sub(FX_ONE, fx_add(xx, zz)),
            z: fx_add(yz, wx),
        },
        z_axis: Vec3 {
            x: fx_add(xz, wy),
            y: fx_sub(yz, wx),
            z: fx_sub(FX_ONE, fx_add(xx, yy)),
        },
    }
}

impl Transform {
    /// Apply the transform to a point.
    pub fn transform_point(&self, p: Vec3) -> (r: Vec3)
        ensures
            r == transform_point_s(*self, p),
    {
        self.matrix.x_axis.vscale(p.x).vadd(self.matrix.y_axis.vscale(p.y)).vadd(
            self.matrix.z_axis.vscale(p.z),
        ).vadd(self.translation)
    }
}

impl Camera {
    /// Build a camera.
    pub fn new(field_of_view: i64, position: Vec3, rotation: Quat) -> (r: Camera)
        ensures
            r == (Camera { field_of_view, position, rotation }),
    {
        Camera { field_of_view, position, rotation }
    }

    /// The camera-to-world transform.
    pub fn local_to_world(&self) -> (r: Transform)
        ensures
            r == local_to_world_s(*self),
    {
        Transform { matrix: mat3_from_quat(self.rotation), translation: self.position }
    }

    /// The world-to-camera transform.
    pub fn world_to_local(&self) -> (r: Transform)
        ensures
            r == world_to_local_s(*self),
    {
        let m: Mat3 = mat3_from_quat(self.rotation);
        let r0: Vec3 = m.y_axis.cross(m.z_axis);
        let r1: Vec3 = m.z_axis.cross(m.x_axis);
        let r2: Vec3 = m.x_axis.cross(m.y_axis);
        let det: i64 = m.x_axis.dot(m.y_axis.cross(m.z_axis));
        let inv_det: i64 = fx_div(FX_ONE, det);
        let inv: Mat3 = Mat3 {
            x_axis: Vec3 {
                x: fx_mul(r0.x, inv_det),
                y: fx_mul(r1.x, inv_det),
                z: fx_mul(r2.x, inv_det),
            },
            y_axis: Vec3 {
                x: fx_mul(r0.y, inv_det),
                y: fx_mul(r1.y, inv_det),
                z: fx_mul(r2.y, inv_det),
            },
            z_axis: Vec3 {
                x: fx_mul(r0.z, inv_det),
                y: fx_mul(r1.z, inv_det),
                z: fx_mul(r2.z, inv_det),
            },
        };
        let moved: Vec3 = inv.x_axis.vscale(self.position.x).vadd(
            inv.y_axis.vscale(self.position.y),
        ).vadd(inv.z_axis.vscale(self.position.z));
        Transform { matrix: inv, translation: Vec3::zero().vsub(moved) }
    }

    /// The camera ray of a (jittered) pixel coordinate; `x` and `y` are
    /// fixed-point pixel coordinates, the image size is in whole pixels.
    pub fn get_ray(&self, x: i64, y: i64, width: u32, height: u32) -> (r: Ray)
        ensures
            r == get_ray_s(*self, x, y, width, height),
    {
        let w_fx: i64 = (width as i64) * 65536;
        let h_fx: i64 = (height as i64) * 65536;
        let u: i64 = fx_sub(fx_div(x, w_fx), FX_HALF);
        let v: i64 = fx_sub(fx_div(y, h_fx), FX_HALF);
        let aspect: i64 = fx_div(w_fx, h_fx);
        let plane_h: i64 = fx_mul(fx_tan(fx_mul(fx_div(self.field_of_view, FX_TWO), RADIANS_PER_DEGREE)), FX_TWO);
        let plane_w: i64 = fx_mul(plane_h, aspect);
        let local: Vec3 = Vec3 { x: fx_mul(u, plane_w), y: fx_mul(v, plane_h), z: FX_ONE };
        let world_point: Vec3 = self.local_to_world().transform_point(local);
        Ray { origin: self.position, direction: world_point.vsub(self.position).normalize() }
    }
}

} // verus!
