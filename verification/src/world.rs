//! The scene and the path-tracing integrator.
//!
//! The scene is an ordered collection of primitives; a ray is resolved to
//! the nearest hit by an exhaustive scan (first hit wins ties).  The
//! integrator follows a bounced light path for a bounded number of
//! segments, accumulating emitted light weighted by the path's throughput;
//! its result — and the state of the random stream it consumes — is pinned
//! as a deterministic function of the scene, the ray and the stream's seed.

use vstd::prelude::*;
use crate::fx::{
    fx_mul, fx_mul_s, fx_sub, fx_sub_s, lemma_fx_mul_nonneg, lemma_fx_square_nonneg, FX_HALF,
    FX_ONE, FX_TWO,
};
use crate::hittable::{hit_s, HitInfo, Hittable};
use crate::material::{material_wf, non_negative_v};
use crate::randomness::{rand_next, rand_unit_s, sample_sphere_s, vector3, RandomSource, SAMPLE_PASSES};
use crate::ray::Ray;
use crate::vec3::{
    dot_s, lerp_s, normalize_s, vadd_s, vmul_s, vone_s, vscale_s, vsub_s, vzero_s, Vec3,
};
use crate::MAX_BOUNCE_COUNT;

verus! {

/// Fixed-point green component of the sky color (152/255, rounded).
pub const SKY_GREEN: i64 = 39065;
/// Fixed-point blue component of the sky color (219/255, rounded).
pub const SKY_BLUE: i64 = 56285;

/// The scene: an ordered collection of primitives, immutable for the
/// duration of a render.
#[derive(Clone, Debug)]
pub struct World {
    pub objects: Vec<Hittable>,
}

/// A well-formed scene: every primitive carries a well-formed material.
pub open spec fn world_wf(objs: Seq<Hittable>) -> bool {
    forall|i: int| 0 <= i < objs.len() ==> material_wf(#[trigger] objs[i].material)
}

/// The nearest hit across a prefix of the scene: a linear scan keeping the
/// strictly smallest distance, so of equal distances the earlier primitive
/// wins.
pub open spec fn world_hit_s(objs: Seq<Hittable>, ray: Ray) -> Option<HitInfo>
    decreases objs.len(),
{
    if objs.len() == 0 {
        None
    } else {
        let prev: Option<HitInfo> = world_hit_s(objs.drop_last(), ray);
        match hit_s(objs.last(), ray) {
            None => prev,
            Some(h) => match prev {
                None => Some(h),
                Some(p) => if h.distance < p.distance {
                    Some(h)
                } else {
                    Some(p)
                },
            },
        }
    }
}

/// The sky color.
pub open spec fn sky_color_s() -> Vec3 {
    Vec3 { x: 0, y: SKY_GREEN, z: SKY_BLUE }
}

/// The background contribution of a missed ray, already weighted by the
/// path throughput: downward rays darken the throughput by one half
/// (ground-shadow approximation); other rays modulate it by the sky color
/// blended toward white with the square of (1 - y) as the factor.
pub open spec fn miss_color_s(color: Vec3, direction: Vec3) -> Vec3 {
    if direction.y < 0 {
        vscale_s(color, FX_HALF)
    } else {
        let t: i64 = fx_mul_s(fx_sub_s(FX_ONE, direction.y), fx_sub_s(FX_ONE, direction.y));
        vmul_s(color, lerp_s(sky_color_s(), vone_s(), t))
    }
}

/// One whole path trace, unrolled over the remaining bounce budget.  The
/// pair carries the accumulated light and the state of the random stream.
/// The loop ends on an exhausted budget, a zero throughput, or a miss
/// (a miss is always terminal, adding the background contribution).
pub open spec fn trace_rec(
    objs: Seq<Hittable>,
    ray: Ray,
    color: Vec3,
    light: Vec3,
    s: u64,
    iters: nat,
) -> (Vec3, u64)
    decreases iters,
{
    if iters == 0 {
        (light, s)
    } else if color == vzero_s() {
        (light, s)
    } else {
        match world_hit_s(objs, ray) {
            None => (vadd_s(light, miss_color_s(color, ray.direction)), s),
            Some(hit) => {
                let sampled: (Vec3, u64) = sample_sphere_s(s, SAMPLE_PASSES as nat);
                let diffuse: Vec3 = normalize_s(vadd_s(hit.normal, sampled.0));
                let specular: Vec3 = vsub_s(
                    ray.direction,
                    vscale_s(hit.normal, fx_mul_s(FX_TWO, dot_s(ray.direction, hit.normal))),
                );
                let coin: i64 = rand_unit_s(sampled.1);
                let s2: u64 = rand_next(sampled.1);
                let is_specular: bool = coin < hit.material.specular_probability;
                let factor: i64 = fx_mul_s(
                    hit.material.smoothness,
                    if is_specular {
                        FX_ONE
                    } else {
                        0
                    },
                );
                let new_ray: Ray = Ray {
                    origin: hit.position,
                    direction: lerp_s(diffuse, specular, factor),
                };
                let emitted: Vec3 = vscale_s(hit.material.emission_color, hit.material.emission_strength);
                let light2: Vec3 = vadd_s(light, vmul_s(emitted, color));
                let color2: Vec3 = vmul_s(
                    color,
                    if is_specular {
                        hit.material.specular_color
                    } else {
                        hit.material.color
                    },
                );
                trace_rec(objs, new_ray, color2, light2, s2, (iters - 1) as nat)
            },
        }
    }
}

/// A whole path trace from a fresh path: full throughput, no light yet.
pub open spec fn trace_s(objs: Seq<Hittable>, ray: Ray, s: u64) -> (Vec3, u64) {
    trace_rec(objs, ray, vone_s(), vzero_s(), s, (MAX_BOUNCE_COUNT + 1) as nat)
}

impl World {
    /// Build a scene from its primitives.
    pub fn new(objects: Vec<Hittable>) -> (r: World)
        ensures
            r.objects@ == objects@,
    {
        World { objects }
    }

    /// Resolve the nearest hit of the ray across the whole scene.
    pub fn intersect(&self, ray: Ray) -> (r: Option<HitInfo>)
        ensures
            r == world_hit_s(self.objects@, ray),
    {
        let mut closest_hit: Option<HitInfo> = None;
        let n: usize = self.objects.len();
        let mut i: usize = 0;
        while i < n
            invariant
                i <= n,
                n == self.objects@.len(),
                closest_hit == world_hit_s(self.objects@.take(i as int), ray),
            decreases n - i,
        {
            let hit: Option<HitInfo> = self.objects[i].intersect(ray);
            proof {
                assert(self.objects@.take(i + 1).drop_last() =~= self.objects@.take(i as int));
                assert(self.objects@.take(i + 1).last() == self.objects@[i as int]);
            }
            match hit {
                Some(h) => {
                    let keep_new: bool = match closest_hit {
                        Some(ch) => h.distance < ch.distance,
                        None => true,
                    };
                    if keep_new {
                        closest_hit = Some(h);
                    }
                },
                None => {},
            }
            i = i + 1;
        }
        proof {
            assert(self.objects@.take(n as int) =~= self.objects@);
        }
        closest_hit
    }

    /// Trace one light path.  The result and the final stream state are a
    /// function of the scene, the ray and the stream's seed alone; for a
    /// well-formed scene no radiance component is negative.
    pub fn trace(&self, ray: Ray, rng: &mut RandomSource) -> (r: Vec3)
        ensures
            r == trace_s(self.objects@, ray, old(rng).state).0,
            final(rng).state == trace_s(self.objects@, ray, old(rng).state).1,
            world_wf(self.objects@) ==> non_negative_v(r),
    {
        let ghost s_init: u64 = rng.state;
        let ghost target: (Vec3, u64) = trace_s(self.objects@, ray, s_init);
        let mut incoming_light: Vec3 = Vec3::zero();
        let mut color: Vec3 = Vec3::one();
        let mut current_ray: Ray = ray;
        let mut bounces_left: u64 = MAX_BOUNCE_COUNT + 1;
        loop
            invariant_except_break
                trace_rec(
                    self.objects@,
                    current_ray,
                    color,
                    incoming_light,
                    rng.state,
                    bounces_left as nat,
                ) == target,
            ensures
                incoming_light == target.0,
                rng.state == target.1,
            decreases bounces_left,
        {
            if bounces_left == 0 {
                break;
            }
            let zero_color: Vec3 = Vec3::zero();
            if color == zero_color {
                break;
            }
            let ghost s0: u64 = rng.state;
            match self.intersect(current_ray) {
                Some(hit) => {
                    let random_direction: Vec3 = vector3(rng);
                    let diffuse_direction: Vec3 = hit.normal.vadd(random_direction).normalize();
                    let specular_direction: Vec3 = current_ray.direction.vsub(
                        hit.normal.vscale(fx_mul(FX_TWO, current_ray.direction.dot(hit.normal))),
                    );
                    let coin: i64 = rng.unit_interval();
                    let is_specular: bool = coin < hit.material.specular_probability;
                    let factor: i64 = fx_mul(
                        hit.material.smoothness,
                        if is_specular {
                            FX_ONE
                        } else {
                            0
                        },
                    );
                    let next_ray: Ray = Ray::new(
                        hit.position,
                        diffuse_direction.lerp(specular_direction, factor),
                    );
                    let emitted_light: Vec3 = hit.material.emission_color.vscale(
                        hit.material.emission_strength,
                    );
                    incoming_light = incoming_light.vadd(emitted_light.vmul(color));
                    color = color.vmul(
                        if is_specular {
                            hit.material.specular_color
                        } else {
                            hit.material.color
                        },
                    );
                    current_ray = next_ray;
                    bounces_left = bounces_left - 1;
                },
                None => {
                    if current_ray.direction.y < 0 {
                        color = color.vscale(FX_HALF);
                    } else {
                        let one_minus_y: i64 = fx_sub(FX_ONE, current_ray.direction.y);
                        let blend: i64 = fx_mul(one_minus_y, one_minus_y);
                        let sky: Vec3 = Vec3::new(0, SKY_GREEN, SKY_BLUE);
                        color = color.vmul(sky.lerp(Vec3::one(), blend));
                    }
                    incoming_light = incoming_light.vadd(color);
                    break;
                },
            }
        }
        proof {
            if world_wf(self.objects@) {
                lemma_trace_rec_nonneg(
                    self.objects@,
                    ray,
                    vone_s(),
                    vzero_s(),
                    s_init,
                    (MAX_BOUNCE_COUNT + 1) as nat,
                );
            }
        }
        incoming_light
    }
}

/// The background of a miss is determined by the ray's direction alone: in
/// an empty scene, any downward ray ends after one trace with the full
/// throughput darkened once, at exactly one half in every component.
pub proof fn lemma_miss_background_downward(origin: Vec3, direction: Vec3, s: u64)
    requires
        direction.y < 0,
    ensures
        trace_s(Seq::<Hittable>::empty(), Ray { origin, direction }, s) == (
            Vec3 { x: FX_HALF, y: FX_HALF, z: FX_HALF },
            s,
        ),
{
    let ray: Ray = Ray { origin, direction };
    let objs: Seq<Hittable> = Seq::<Hittable>::empty();
    assert(world_hit_s(objs, ray) is None);
    assert(miss_color_s(vone_s(), direction) == vscale_s(vone_s(), FX_HALF));
    crate::fx::lemma_fx_mul_one(FX_HALF);
    assert(fx_mul_s(FX_ONE, FX_HALF) == FX_HALF);
    assert(trace_rec(objs, ray, vone_s(), vzero_s(), s, (MAX_BOUNCE_COUNT + 1) as nat) == (
        vadd_s(vzero_s(), miss_color_s(vone_s(), direction)),
        s,
    ));
}

/// Nearest-hit selection: a missing result means every primitive misses,
/// and a hit is the hit of some primitive whose distance no other
/// primitive's hit undercuts.
#[verifier::rlimit(100)]
pub proof fn lemma_nearest_hit(objs: Seq<Hittable>, ray: Ray)
    ensures
        world_hit_s(objs, ray) is None ==> forall|i: int|
            0 <= i < objs.len() ==> #[trigger] hit_s(objs[i], ray) is None,
        world_hit_s(objs, ray) is Some ==> exists|i: int|
            0 <= i < objs.len() && #[trigger] hit_s(objs[i], ray) == world_hit_s(objs, ray),
        world_hit_s(objs, ray) is Some ==> forall|i: int|
            0 <= i < objs.len() && #[trigger] hit_s(objs[i], ray) is Some
                ==> world_hit_s(objs, ray)->0.distance <= hit_s(objs[i], ray)->0.distance,
    decreases objs.len(),
{
    if objs.len() == 0 {
    } else {
        lemma_nearest_hit(objs.drop_last(), ray);
        assert(forall|i: int|
            0 <= i < objs.len() - 1 ==> #[trigger] hit_s(objs[i], ray) == hit_s(
                objs.drop_last()[i],
                ray,
            ));
        assert(objs.last() == objs[objs.len() - 1]);
        if world_hit_s(objs, ray) is Some {
            let r: Option<HitInfo> = world_hit_s(objs, ray);
            let prev: Option<HitInfo> = world_hit_s(objs.drop_last(), ray);
            match hit_s(objs.last(), ray) {
                None => {
                    assert(r == prev);
                    let j: int = choose|j: int|
                        0 <= j < objs.drop_last().len() && #[trigger] hit_s(
                            objs.drop_last()[j],
                            ray,
                        ) == prev;
                    assert(hit_s(objs[j], ray) == r);
                },
                Some(h) => {
                    if prev is Some && !(h.distance < prev->0.distance) {
                        let j: int = choose|j: int|
                            0 <= j < objs.drop_last().len() && #[trigger] hit_s(
                                objs.drop_last()[j],
                                ray,
                            ) == prev;
                        assert(hit_s(objs[j], ray) == r);
                    } else {
                        assert(hit_s(objs[objs.len() - 1], ray) == r);
                    }
                },
            }
        }
    }
}

/// A primitive's hit record carries that primitive's material.
pub proof fn lemma_hit_material(h: Hittable, ray: Ray)
    ensures
        hit_s(h, ray) is Some ==> hit_s(h, ray)->0.material == h.material,
{
    reveal(hit_s);
}

/// The background contribution keeps a non-negative throughput
/// non-negative.
proof fn lemma_miss_color_nonneg(color: Vec3, direction: Vec3)
    requires
        non_negative_v(color),
    ensures
        non_negative_v(miss_color_s(color, direction)),
{
    if direction.y < 0 {
        lemma_fx_mul_nonneg(color.x, FX_HALF);
        lemma_fx_mul_nonneg(color.y, FX_HALF);
        lemma_fx_mul_nonneg(color.z, FX_HALF);
    } else {
        let t: i64 = fx_mul_s(fx_sub_s(FX_ONE, direction.y), fx_sub_s(FX_ONE, direction.y));
        lemma_fx_square_nonneg(fx_sub_s(FX_ONE, direction.y));
        let blended: Vec3 = lerp_s(sky_color_s(), vone_s(), t);
        lemma_fx_mul_nonneg(fx_sub_s(FX_ONE, 0), t);
        lemma_fx_mul_nonneg(fx_sub_s(FX_ONE, SKY_GREEN), t);
        lemma_fx_mul_nonneg(fx_sub_s(FX_ONE, SKY_BLUE), t);
        assert(non_negative_v(blended));
        lemma_fx_mul_nonneg(color.x, blended.x);
        lemma_fx_mul_nonneg(color.y, blended.y);
        lemma_fx_mul_nonneg(color.z, blended.z);
    }
}

/// Component-wise products of non-negative vectors are non-negative.
proof fn lemma_vmul_nonneg(a: Vec3, b: Vec3)
    requires
        non_negative_v(a),
        non_negative_v(b),
    ensures
        non_negative_v(vmul_s(a, b)),
{
    lemma_fx_mul_nonneg(a.x, b.x);
    lemma_fx_mul_nonneg(a.y, b.y);
    lemma_fx_mul_nonneg(a.z, b.z);
}

/// Scaling a non-negative vector by a non-negative scalar stays
/// non-negative.
proof fn lemma_vscale_nonneg(a: Vec3, s: i64)
    requires
        non_negative_v(a),
        0 <= s,
    ensures
        non_negative_v(vscale_s(a, s)),
{
    lemma_fx_mul_nonneg(a.x, s);
    lemma_fx_mul_nonneg(a.y, s);
    lemma_fx_mul_nonneg(a.z, s);
}

/// Energy non-negativity: a trace through a well-formed scene, started with
/// non-negative throughput and accumulator, accumulates only non-negative
/// radiance.
#[verifier::rlimit(100)]
pub proof fn lemma_trace_rec_nonneg(
    objs: Seq<Hittable>,
    ray: Ray,
    color: Vec3,
    light: Vec3,
    s: u64,
    iters: nat,
)
    requires
        world_wf(objs),
        non_negative_v(color),
        non_negative_v(light),
    ensures
        non_negative_v(trace_rec(objs, ray, color, light, s, iters).0),
    decreases iters,
{
    if iters == 0 {
    } else if color == vzero_s() {
    } else {
        match world_hit_s(objs, ray) {
            None => {
                lemma_miss_color_nonneg(color, ray.direction);
            },
            Some(hit) => {
                lemma_nearest_hit(objs, ray);
                let i: int = choose|i: int|
                    0 <= i < objs.len() && #[trigger] hit_s(objs[i], ray) == world_hit_s(objs, ray);
                lemma_hit_material(objs[i], ray);
                assert(material_wf(hit.material));
                let sampled: (Vec3, u64) = sample_sphere_s(s, SAMPLE_PASSES as nat);
                let coin: i64 = rand_unit_s(sampled.1);
                let s2: u64 = rand_next(sampled.1);
                let is_specular: bool = coin < hit.material.specular_probability;
                let factor: i64 = fx_mul_s(
                    hit.material.smoothness,
                    if is_specular {
                        FX_ONE
                    } else {
                        0
                    },
                );
                let diffuse: Vec3 = normalize_s(vadd_s(hit.normal, sampled.0));
                let specular: Vec3 = vsub_s(
                    ray.direction,
                    vscale_s(hit.normal, fx_mul_s(FX_TWO, dot_s(ray.direction, hit.normal))),
                );
                let new_ray: Ray = Ray {
                    origin: hit.position,
                    direction: lerp_s(diffuse, specular, factor),
                };
                let emitted: Vec3 = vscale_s(hit.material.emission_color, hit.material.emission_strength);
                lemma_vscale_nonneg(hit.material.emission_color, hit.material.emission_strength);
                lemma_vmul_nonneg(emitted, color);
                let light2: Vec3 = vadd_s(light, vmul_s(emitted, color));
                let color2: Vec3 = vmul_s(
                    color,
                    if is_specular {
                        hit.material.specular_color
                    } else {
                        hit.material.color
                    },
                );
                if is_specular {
                    lemma_vmul_nonneg(color, hit.material.specular_color);
                } else {
                    lemma_vmul_nonneg(color, hit.material.color);
                }
                lemma_trace_rec_nonneg(objs, new_ray, color2, light2, s2, (iters - 1) as nat);
                assert(trace_rec(objs, ray, color, light, s, iters) == trace_rec(
                    objs,
                    new_ray,
                    color2,
                    light2,
                    s2,
                    (iters - 1) as nat,
                ));
            },
        }
    }
}

} // verus!
