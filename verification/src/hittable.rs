//! Scene primitives and their ray intersection tests.
//!
//! A sphere is intersected by solving the quadratic of the offset ray and
//! taking the near root; a triangle by a Moeller-Trumbore-style formulation
//! with single-sided (back-face) culling and barycentric containment tests.
//! Both produce an optional hit record, and both are specified exactly by
//! spec-level mirrors of the same fixed-point arithmetic.

use vstd::prelude::*;
use crate::fx::{
    fx_div, fx_div_s, fx_mul, fx_mul_s, fx_neg, fx_neg_s, fx_sqrt, fx_sqrt_s, fx_sub, fx_sub_s,
    fx_clip, lemma_sqrt_floor_bounds, mag, sqrt_floor, FX_FOUR, FX_ONE, FX_TWO,
};
use crate::material::Material;
use crate::ray::{follow_s, Ray};
use crate::vec3::{cross_s, dot_s, normalize_s, vadd_s, vscale_s, vsub_s, Vec3};

verus! {

/// The culling threshold of the triangle test: determinants below this value
/// (back-facing or near-grazing rays) are rejected.  It is the smallest
/// positive fixed-point scalar.
pub const EPSILON: i64 = 1;

/// A resolved intersection: distance along the ray, world-space position,
/// unit surface normal, and a copy of the material that was hit.
#[derive(Clone, Copy, Debug, PartialEq, Eq, Structural)]
pub struct HitInfo {
    pub distance: i64,
    pub position: Vec3,
    pub normal: Vec3,
    pub material: Material,
}

/// The closed set of primitive shapes.
#[derive(Clone, Copy, Debug, PartialEq, Eq, Structural)]
pub enum HittableType {
    Sphere { position: Vec3, radius: i64 },
    Triangle { a: Vec3, b: Vec3, c: Vec3, na: Vec3, nb: Vec3, nc: Vec3 },
}

/// A primitive together with its material.
#[derive(Clone, Copy, Debug, PartialEq, Eq, Structural)]
pub struct Hittable {
    pub typ: HittableType,
    pub material: Material,
}

/// Twice the dot product of the offset origin and the ray direction: the
/// linear coefficient of the sphere quadratic.
pub open spec fn sphere_b_s(position: Vec3, ray: Ray) -> i64 {
    fx_mul_s(FX_TWO, dot_s(vsub_s(ray.origin, position), ray.direction))
}

/// The constant coefficient of the sphere quadratic: squared distance of the
/// origin from the center, minus the squared radius.
pub open spec fn sphere_c_s(position: Vec3, radius: i64, ray: Ray) -> i64 {
    let offset: Vec3 = vsub_s(ray.origin, position);
    fx_sub_s(dot_s(offset, offset), fx_mul_s(radius, radius))
}

/// The discriminant of the sphere quadratic (the direction is assumed unit
/// length, so the quadratic coefficient is one).
pub open spec fn sphere_disc_s(position: Vec3, radius: i64, ray: Ray) -> i64 {
    let b: i64 = sphere_b_s(position, ray);
    fx_sub_s(fx_mul_s(b, b), fx_mul_s(FX_FOUR, sphere_c_s(position, radius, ray)))
}

/// The near root of the sphere quadratic.
pub open spec fn sphere_dist_s(position: Vec3, radius: i64, ray: Ray) -> i64 {
    let b: i64 = sphere_b_s(position, ray);
    fx_div_s(fx_sub_s(fx_neg_s(b), fx_sqrt_s(sphere_disc_s(position, radius, ray))), FX_TWO)
}

/// The sphere intersection: no hit when the discriminant is negative or the
/// near root lies behind the origin (in particular, a ray starting inside
/// the sphere reports no hit — a deliberate simplification); otherwise the
/// hit at the near root, with the outward normal at the hit position.
pub open spec fn sphere_hit_s(position: Vec3, radius: i64, material: Material, ray: Ray) -> Option<
    HitInfo,
> {
    if sphere_disc_s(position, radius, ray) >= 0 {
        let distance: i64 = sphere_dist_s(position, radius, ray);
        if distance >= 0 {
            let hit_position: Vec3 = follow_s(ray, distance);
            Some(
                HitInfo {
                    distance,
                    position: hit_position,
                    normal: normalize_s(vsub_s(hit_position, position)),
                    material,
                },
            )
        } else {
            None
        }
    } else {
        None
    }
}

/// The (unnormalized) face normal of the triangle.
pub open spec fn tri_normal_vector_s(a: Vec3, b: Vec3, c: Vec3) -> Vec3 {
    cross_s(vsub_s(b, a), vsub_s(c, a))
}

/// The determinant of the triangle test; rays with a determinant below
/// `EPSILON` approach from the culled side (or graze) and miss.
pub open spec fn tri_det_s(a: Vec3, b: Vec3, c: Vec3, ray: Ray) -> i64 {
    fx_neg_s(dot_s(ray.direction, tri_normal_vector_s(a, b, c)))
}

/// The distance along the ray to the triangle plane.
pub open spec fn tri_dist_s(a: Vec3, b: Vec3, c: Vec3, ray: Ray) -> i64 {
    let ao: Vec3 = vsub_s(ray.origin, a);
    let inv_det: i64 = fx_div_s(FX_ONE, tri_det_s(a, b, c, ray));
    fx_mul_s(dot_s(ao, tri_normal_vector_s(a, b, c)), inv_det)
}

/// The barycentric weight of vertex `b`.
pub open spec fn tri_u_s(a: Vec3, b: Vec3, c: Vec3, ray: Ray) -> i64 {
    let ao: Vec3 = vsub_s(ray.origin, a);
    let dao: Vec3 = cross_s(ao, ray.direction);
    let inv_det: i64 = fx_div_s(FX_ONE, tri_det_s(a, b, c, ray));
    fx_mul_s(dot_s(vsub_s(c, a), dao), inv_det)
}

/// The barycentric weight of vertex `c`.
pub open spec fn tri_v_s(a: Vec3, b: Vec3, c: Vec3, ray: Ray) -> i64 {
    let ao: Vec3 = vsub_s(ray.origin, a);
    let dao: Vec3 = cross_s(ao, ray.direction);
    let inv_det: i64 = fx_div_s(FX_ONE, tri_det_s(a, b, c, ray));
    fx_mul_s(fx_neg_s(dot_s(vsub_s(b, a), dao)), inv_det)
}

/// The barycentric weight of vertex `a`: one minus the other two weights.
pub open spec fn tri_w_s(a: Vec3, b: Vec3, c: Vec3, ray: Ray) -> i64 {
    fx_sub_s(fx_sub_s(FX_ONE, tri_u_s(a, b, c, ray)), tri_v_s(a, b, c, ray))
}

/// The triangle intersection: a hit requires the determinant at or above the
/// culling threshold, a non-negative distance, and non-negative barycentric
/// weights; the normal is the barycentric interpolation of the per-vertex
/// normals (smooth shading), normalized.
pub open spec fn triangle_hit_s(
    a: Vec3,
    b: Vec3,
    c: Vec3,
    na: Vec3,
    nb: Vec3,
    nc: Vec3,
    material: Material,
    ray: Ray,
) -> Option<HitInfo> {
    let determinant: i64 = tri_det_s(a, b, c, ray);
    let distance: i64 = tri_dist_s(a, b, c, ray);
    let u: i64 = tri_u_s(a, b, c, ray);
    let v: i64 = tri_v_s(a, b, c, ray);
    let w: i64 = tri_w_s(a, b, c, ray);
    if determinant >= EPSILON && distance >= 0 && u >= 0 && v >= 0 && w >= 0 {
        Some(
            HitInfo {
                distance,
                position: follow_s(ray, distance),
                normal: normalize_s(
                    vadd_s(vadd_s(vscale_s(na, w), vscale_s(nb, u)), vscale_s(nc, v)),
                ),
                material,
            },
        )
    } else {
        None
    }
}

/// The intersection of one primitive.  Opaque: callers reason about it
/// through `Hittable::intersect`'s contract and the lemmas below, and
/// reveal it only where the dispatch itself matters.
#[verifier::opaque]
pub open spec fn hit_s(h: Hittable, ray: Ray) -> Option<HitInfo> {
    match h.typ {
        HittableType::Sphere { position, radius } => sphere_hit_s(
            position,
            radius,
            h.material,
            ray,
        ),
        HittableType::Triangle { a, b, c, na, nb, nc } => triangle_hit_s(
            a,
            b,
            c,
            na,
            nb,
            nc,
            h.material,
            ray,
        ),
    }
}

impl Hittable {
    /// Test the ray against this primitive.
    pub fn intersect(&self, ray: Ray) -> (r: Option<HitInfo>)
        ensures
            r == hit_s(*self, ray),
    {
        proof {
            reveal(hit_s);
        }
        match self.typ {
            HittableType::Sphere { position, radius } => {
                let offset: Vec3 = ray.origin.vsub(position);
                let b: i64 = fx_mul(FX_TWO, offset.dot(ray.direction));
                let c: i64 = fx_sub(offset.dot(offset), fx_mul(radius, radius));
                let d: i64 = fx_sub(fx_mul(b, b), fx_mul(FX_FOUR, c));
                if d >= 0 {
                    let distance: i64 = fx_div(fx_sub(fx_neg(b), fx_sqrt(d)), FX_TWO);
                    if distance >= 0 {
                        let hit_position: Vec3 = ray.follow(distance);
                        Some(
                            HitInfo {
                                distance,
                                position: hit_position,
                                normal: hit_position.vsub(position).normalize(),
                                material: self.material,
                            },
                        )
                    } else {
                        None
                    }
                } else {
                    None
                }
            },
            HittableType::Triangle { a, b, c, na, nb, nc } => {
                let edge_ab: Vec3 = b.vsub(a);
                let edge_ac: Vec3 = c.vsub(a);
                let normal_vector: Vec3 = edge_ab.cross(edge_ac);
                let ao: Vec3 = ray.origin.vsub(a);
                let dao: Vec3 = ao.cross(ray.direction);
                let determinant: i64 = fx_neg(ray.direction.dot(normal_vector));
                let inverse_determinant: i64 = fx_div(FX_ONE, determinant);
                let distance: i64 = fx_mul(ao.dot(normal_vector), inverse_determinant);
                let u: i64 = fx_mul(edge_ac.dot(dao), inverse_determinant);
                let v: i64 = fx_mul(fx_neg(edge_ab.dot(dao)), inverse_determinant);
                let w: i64 = fx_sub(fx_sub(FX_ONE, u), v);
                if determinant >= EPSILON && distance >= 0 && u >= 0 && v >= 0 && w >= 0 {
                    Some(
                        HitInfo {
                            distance,
                            position: ray.follow(distance),
                            normal: na.vscale(w).vadd(nb.vscale(u)).vadd(nc.vscale(v)).normalize(),
                            material: self.material,
                        },
                    )
                } else {
                    None
                }
            },
        }
    }
}

/// Sphere self-miss: a ray whose origin lies strictly inside the sphere
/// reports no hit — a deliberate simplification, since only the near root
/// of the quadratic is taken and it lies behind the origin.  Strictly
/// inside is read on the computed coefficients: the constant coefficient is
/// negative, by at least the fixed-point rounding margin where the ray
/// points away from the center, and both coefficients are far from
/// saturation.
pub proof fn lemma_sphere_inside_misses(position: Vec3, radius: i64, material: Material, ray: Ray)
    requires
        sphere_c_s(position, radius, ray) < 0,
        sphere_b_s(position, ray) >= 0 || 65536 * mag(sphere_c_s(position, radius, ray) as int)
            >= mag(sphere_b_s(position, ray) as int) + 131072,
        mag(sphere_b_s(position, ray) as int) <= 0x8000000000,
        mag(sphere_c_s(position, radius, ray) as int) <= 0x8000000000,
    ensures
        sphere_hit_s(position, radius, material, ray) is None,
{
    let b: i64 = sphere_b_s(position, ray);
    let c: i64 = sphere_c_s(position, radius, ray);
    let bi: int = b as int;
    let mb: int = mag(bi);
    let mc: int = mag(c as int);

    // the squared linear coefficient, rescaled: no saturation
    let m: int = (mb * mb) / 65536;
    assert(mb * mb <= 0x40000000000000000000) by (nonlinear_arith)
        requires
            0 <= mb <= 0x8000000000,
    ;
    vstd::arithmetic::div_mod::lemma_div_pos_is_pos(mb * mb, 65536);
    vstd::arithmetic::div_mod::lemma_div_is_ordered(mb * mb, 0x40000000000000000000, 65536);
    assert(0x40000000000000000000int / 65536int == 0x4000000000000000int);
    assert(0 <= m <= 0x4000000000000000);
    let bb: i64 = fx_mul_s(b, b);
    assert(bb == m);

    // four times the constant coefficient is exact
    assert(mag(FX_FOUR as int) == 262144int);
    assert(262144 * mc == (4 * mc) * 65536) by (nonlinear_arith);
    vstd::arithmetic::div_mod::lemma_div_by_multiple(4 * mc, 65536);
    let fc: i64 = fx_mul_s(FX_FOUR, c);
    assert(fc == -4 * mc);

    // the discriminant collects both, positively and without saturation
    let disc: i64 = sphere_disc_s(position, radius, ray);
    assert(disc == fx_sub_s(bb, fc));
    assert(disc == m + 4 * mc);
    assert(disc >= 4);

    // the square root of the discriminant, bracketed
    let n: int = disc * 65536;
    let s0: int = sqrt_floor(n);
    lemma_sqrt_floor_bounds(n);
    assert(s0 <= 0x10000000000) by (nonlinear_arith)
        requires
            0 <= s0,
            s0 * s0 <= n,
            n < 0x100000000000000000000,
    ;
    assert(fx_sqrt_s(disc) == s0);

    // the root is large enough that the near root lies strictly behind
    if b >= 0 {
        assert(n >= 262144);
        assert(s0 >= 512) by (nonlinear_arith)
            requires
                n < (s0 + 1) * (s0 + 1),
                n >= 262144,
                s0 >= 0,
        ;
    } else {
        vstd::arithmetic::div_mod::lemma_fundamental_div_mod(mb * mb, 65536);
        vstd::arithmetic::div_mod::lemma_mod_bound(mb * mb, 65536);
        assert(65536 * m >= mb * mb - 65535);
        assert(n == 65536 * m + 4 * mc * 65536) by (nonlinear_arith)
            requires
                n == (m + 4 * mc) * 65536,
        ;
        assert(4 * mc * 65536 >= 4 * mb + 524288) by (nonlinear_arith)
            requires
                65536 * mc >= mb + 131072,
        ;
        assert(mag(bi) * mag(bi) == bi * bi) by (nonlinear_arith);
        assert(n >= (mb + 2) * (mb + 2)) by (nonlinear_arith)
            requires
                n >= mb * mb - 65535 + 4 * mb + 524288,
        ;
        assert(s0 >= mb + 2) by (nonlinear_arith)
            requires
                n < (s0 + 1) * (s0 + 1),
                n >= (mb + 2) * (mb + 2),
                s0 >= 0,
                mb >= 0,
        ;
    }

    // the near root itself: negative by at least two smallest scalars
    assert(fx_neg_s(b) == -bi);
    let num: i64 = fx_sub_s(fx_neg_s(b), fx_sqrt_s(disc));
    assert(num == -bi - s0);
    assert(num <= -2);
    let mn: int = mag(num as int);
    assert(mn >= 2);
    assert(mag(FX_TWO as int) == 131072int);
    vstd::arithmetic::div_mod::lemma_div_by_multiple(mn, 65536);
    vstd::arithmetic::div_mod::lemma_div_denominator(mn * 65536, 65536, 2);
    assert((mn * 65536) / 131072 == mn / 2);
    assert(mn / 2 >= 1);
    let dist: i64 = sphere_dist_s(position, radius, ray);
    assert(dist == fx_div_s(num, FX_TWO));
    assert(dist == -(mn / 2));
    assert(dist < 0);
}

/// A ray from outside a sphere, pointing straight at its center, hits at
/// exactly the center distance minus the radius, with the normal pointing
/// back along the ray (parallel to hit position minus center).  Stated
/// along the z axis with whole-number center distance and radius, where
/// the fixed-point arithmetic is exact.
#[verifier::rlimit(100)]
pub proof fn lemma_sphere_head_on_hit(
    position: Vec3,
    radius: i64,
    material: Material,
    ray: Ray,
    d: int,
    r: int,
)
    requires
        0 < r < d <= 0x100000,
        ray.direction == (Vec3 { x: 0, y: 0, z: 65536 }),
        ray.origin.x == position.x,
        ray.origin.y == position.y,
        position.z == ray.origin.z + d * 65536,
        radius == r * 65536,
    ensures
        sphere_hit_s(position, radius, material, ray) == Some(
            HitInfo {
                distance: ((d - r) * 65536) as i64,
                position: (Vec3 {
                    x: ray.origin.x,
                    y: ray.origin.y,
                    z: (ray.origin.z + (d - r) * 65536) as i64,
                }),
                normal: (Vec3 { x: 0, y: 0, z: -65536i64 }),
                material,
            },
        ),
{
    let offset: Vec3 = vsub_s(ray.origin, position);
    assert(offset == (Vec3 { x: 0, y: 0, z: (-(d * 65536)) as i64 }));

    // the offset is axis-aligned, so the dot products collapse
    crate::fx::lemma_fx_mul_zero(0);
    crate::fx::lemma_fx_mul_one(offset.z);
    let dd: i64 = dot_s(offset, ray.direction);
    assert(dd as int == -(d * 65536));

    assert(mag(dd as int) == d * 65536);
    assert(131072 * (d * 65536) == (2 * d * 65536) * 65536) by (nonlinear_arith);
    vstd::arithmetic::div_mod::lemma_div_by_multiple(2 * d * 65536, 65536);
    let b: i64 = sphere_b_s(position, ray);
    assert(b as int == -(2 * d * 65536));

    assert((d * 65536) * (d * 65536) == (d * d * 65536) * 65536) by (nonlinear_arith);
    vstd::arithmetic::div_mod::lemma_div_by_multiple(d * d * 65536, 65536);
    assert(d * d * 65536 <= 0x100000000000000) by (nonlinear_arith)
        requires
            0 < d <= 0x100000,
    ;
    assert(fx_mul_s(offset.z, offset.z) as int == d * d * 65536);
    let oo: i64 = dot_s(offset, offset);
    assert(oo as int == d * d * 65536);

    assert((r * 65536) * (r * 65536) == (r * r * 65536) * 65536) by (nonlinear_arith);
    vstd::arithmetic::div_mod::lemma_div_by_multiple(r * r * 65536, 65536);
    assert(r * r * 65536 <= 0x100000000000000) by (nonlinear_arith)
        requires
            0 < r <= 0x100000,
    ;
    assert(fx_mul_s(radius, radius) as int == r * r * 65536);
    let c: i64 = sphere_c_s(position, radius, ray);
    assert(r * r < d * d) by (nonlinear_arith)
        requires
            0 < r < d,
    ;
    assert(c as int == (d * d - r * r) * 65536) by (nonlinear_arith)
        requires
            c as int == fx_clip(d * d * 65536 - r * r * 65536) as int,
            0 <= d * d * 65536 - r * r * 65536 <= 0x100000000000000,
            d * d * 65536 - r * r * 65536 == (d * d - r * r) * 65536,
    ;

    // the discriminant reduces to four times the squared radius
    assert(0 <= 4 * d * d * 65536 <= 0x400000000000000) by (nonlinear_arith)
        requires
            0 < d <= 0x100000,
    ;
    assert(0 <= 4 * r * r * 65536 <= 0x400000000000000) by (nonlinear_arith)
        requires
            0 < r <= 0x100000,
    ;
    assert(d * d <= 0x10000000000 && 0 < r * r) by (nonlinear_arith)
        requires
            0 < r < d <= 0x100000,
    ;
    assert(0 <= 4 * (d * d - r * r) * 65536 <= 0x400000000000000) by (nonlinear_arith)
        requires
            0 < r * r < d * d,
            d * d <= 0x10000000000,
    ;
    assert((2 * d * 65536) * (2 * d * 65536) == (4 * d * d * 65536) * 65536) by (nonlinear_arith);
    vstd::arithmetic::div_mod::lemma_div_by_multiple(4 * d * d * 65536, 65536);
    let bb: i64 = fx_mul_s(b, b);
    assert(mag(b as int) == 2 * d * 65536);
    assert(bb as int == 4 * d * d * 65536) by (nonlinear_arith)
        requires
            bb as int == fx_clip(((2 * d * 65536) * (2 * d * 65536)) / 65536) as int,
            ((2 * d * 65536) * (2 * d * 65536)) / 65536 == 4 * d * d * 65536,
            0 <= 4 * d * d * 65536 <= 0x400000000000000,
    ;
    assert(262144 * ((d * d - r * r) * 65536) == (4 * (d * d - r * r) * 65536) * 65536)
        by (nonlinear_arith);
    vstd::arithmetic::div_mod::lemma_div_by_multiple(4 * (d * d - r * r) * 65536, 65536);
    let fc: i64 = fx_mul_s(FX_FOUR, c);
    assert(fc as int == 4 * (d * d - r * r) * 65536) by (nonlinear_arith)
        requires
            fc as int == fx_clip((262144 * ((d * d - r * r) * 65536)) / 65536) as int,
            (262144 * ((d * d - r * r) * 65536)) / 65536 == 4 * (d * d - r * r) * 65536,
            0 <= 4 * (d * d - r * r) * 65536 <= 0x400000000000000,
    ;
    let disc: i64 = sphere_disc_s(position, radius, ray);
    assert(disc as int == 4 * r * r * 65536) by (nonlinear_arith)
        requires
            disc as int == fx_clip(bb as int - fc as int) as int,
            bb as int == 4 * d * d * 65536,
            fc as int == 4 * (d * d - r * r) * 65536,
            0 <= 4 * r * r * 65536 <= 0x400000000000000,
    ;
    assert(disc > 0) by (nonlinear_arith)
        requires
            disc as int == 4 * r * r * 65536,
            r > 0,
    ;

    // its square root is exactly twice the radius
    let n: int = disc * 65536;
    assert((2 * r * 65536) * (2 * r * 65536) == n) by (nonlinear_arith)
        requires
            n == (4 * r * r * 65536) * 65536,
    ;
    assert(n < (2 * r * 65536 + 1) * (2 * r * 65536 + 1)) by (nonlinear_arith)
        requires
            n == (2 * r * 65536) * (2 * r * 65536),
            r > 0,
    ;
    crate::fx::lemma_sqrt_unique(n, 2 * r * 65536);
    let s: i64 = fx_sqrt_s(disc);
    assert(s as int == 2 * r * 65536);

    // the near root is the center distance minus the radius
    let num: i64 = fx_sub_s(fx_neg_s(b), s);
    assert(num as int == 2 * (d - r) * 65536) by (nonlinear_arith)
        requires
            num as int == fx_clip(2 * d * 65536 - 2 * r * 65536) as int,
            0 <= 2 * (d - r) * 65536 <= 0x400000000000000,
            2 * d * 65536 - 2 * r * 65536 == 2 * (d - r) * 65536,
    ;
    assert(mag(num as int) == 2 * (d - r) * 65536);
    assert((2 * (d - r) * 65536) * 65536 == ((d - r) * 65536) * 131072) by (nonlinear_arith);
    vstd::arithmetic::div_mod::lemma_div_by_multiple((d - r) * 65536, 131072);
    let dist: i64 = sphere_dist_s(position, radius, ray);
    assert(dist as int == (d - r) * 65536);
    assert(dist >= 0);

    // the hit position walks the axis, and the normal points back along it
    crate::fx::lemma_fx_mul_zero(dist);
    crate::fx::lemma_fx_mul_one(dist);
    let hit_position: Vec3 = follow_s(ray, dist);
    assert(ray.origin.z + (d - r) * 65536 <= ray.origin.z + d * 65536);
    assert(hit_position == (Vec3 {
        x: ray.origin.x,
        y: ray.origin.y,
        z: (ray.origin.z + (d - r) * 65536) as i64,
    }));
    let back: Vec3 = vsub_s(hit_position, position);
    assert(back == (Vec3 { x: 0, y: 0, z: (-(r * 65536)) as i64 }));
    assert(fx_mul_s(back.z, back.z) as int == r * r * 65536);
    assert(dot_s(back, back) as int == r * r * 65536);
    assert((r * 65536) * (r * 65536) == (r * r * 65536) * 65536) by (nonlinear_arith);
    assert((r * r * 65536) * 65536 < (r * 65536 + 1) * (r * 65536 + 1)) by (nonlinear_arith)
        requires
            (r * 65536) * (r * 65536) == (r * r * 65536) * 65536,
            r > 0,
    ;
    crate::fx::lemma_sqrt_unique((r * r * 65536) * 65536, r * 65536);
    let len: i64 = fx_sqrt_s(dot_s(back, back));
    assert(len as int == r * 65536);
    vstd::arithmetic::div_mod::lemma_div_of0(r * 65536);
    assert(fx_div_s(0, len) == 0);
    assert((r * 65536) * 65536 == 65536 * (r * 65536)) by (nonlinear_arith);
    vstd::arithmetic::div_mod::lemma_div_multiples_vanish(65536, r * 65536);
    assert(fx_div_s(back.z, len) as int == -65536);
    assert(normalize_s(back) == (Vec3 { x: 0, y: 0, z: -65536i64 }));
}

/// Back-face culling: a ray whose determinant against the triangle lies
/// below the culling threshold misses it, whatever the geometric overlap.
pub proof fn lemma_backface_culled(
    a: Vec3,
    b: Vec3,
    c: Vec3,
    na: Vec3,
    nb: Vec3,
    nc: Vec3,
    material: Material,
    ray: Ray,
)
    requires
        tri_det_s(a, b, c, ray) < EPSILON,
    ensures
        triangle_hit_s(a, b, c, na, nb, nc, material, ray) is None,
{
}

/// Barycentric consistency: whenever the triangle test reports a hit, the
/// three barycentric weights are non-negative and sum exactly to one.
pub proof fn lemma_barycentric_consistent(
    a: Vec3,
    b: Vec3,
    c: Vec3,
    na: Vec3,
    nb: Vec3,
    nc: Vec3,
    material: Material,
    ray: Ray,
)
    requires
        triangle_hit_s(a, b, c, na, nb, nc, material, ray) is Some,
    ensures
        tri_u_s(a, b, c, ray) >= 0,
        tri_v_s(a, b, c, ray) >= 0,
        tri_w_s(a, b, c, ray) >= 0,
        tri_u_s(a, b, c, ray) + tri_v_s(a, b, c, ray) + tri_w_s(a, b, c, ray) == FX_ONE,
{
    let u: i64 = tri_u_s(a, b, c, ray);
    let v: i64 = tri_v_s(a, b, c, ray);
    let w: i64 = tri_w_s(a, b, c, ray);
    assert(u >= 0 && v >= 0 && w >= 0);
    assert(fx_sub_s(FX_ONE, u) == FX_ONE - u);
    assert(w == (FX_ONE - u) - v);
}

} // verus!
