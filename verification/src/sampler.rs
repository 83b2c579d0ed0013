//! The per-pixel sampler and the whole-image driver.
//!
//! Each pixel's radiance is the average of many independent camera-ray
//! samples; each sample jitters the pixel coordinate by a uniform sub-pixel
//! offset (anti-aliasing) and traces one path.  Pixels are independent:
//! every pixel derives its own random stream from the render seed, so the
//! image is a deterministic function of scene, camera, size and seed, and
//! pixels could be computed in any order.

use vstd::prelude::*;
use crate::camera::{get_ray_s, Camera};
use crate::fx::{fx_div, fx_div_s, lemma_fx_div_nonneg};
use crate::material::non_negative_v;
use crate::randomness::{rand_next, rand_unit_s, RandomSource};
use crate::ray::Ray;
use crate::vec3::{vadd_s, vzero_s, Vec3};
use crate::world::{lemma_trace_rec_nonneg, trace_s, world_wf, World};

verus! {

/// The running total over the remaining samples of one pixel, starting from
/// the given accumulator and stream state.  Each sample draws two sub-pixel
/// offsets, builds the camera ray, and traces one path.
pub open spec fn sample_pixel_rec(
    objs: Seq<crate::hittable::Hittable>,
    cam: Camera,
    px: u32,
    py: u32,
    width: u32,
    height: u32,
    total: Vec3,
    s: u64,
    n: nat,
) -> (Vec3, u64)
    decreases n,
{
    if n == 0 {
        (total, s)
    } else {
        let jx: i64 = rand_unit_s(s);
        let s1: u64 = rand_next(s);
        let jy: i64 = rand_unit_s(s1);
        let s2: u64 = rand_next(s1);
        let x: i64 = ((px as int) * 65536 + jx) as i64;
        let y: i64 = ((py as int) * 65536 + jy) as i64;
        let ray: Ray = get_ray_s(cam, x, y, width, height);
        let traced: (Vec3, u64) = trace_s(objs, ray, s2);
        sample_pixel_rec(
            objs,
            cam,
            px,
            py,
            width,
            height,
            vadd_s(total, traced.0),
            traced.1,
            (n - 1) as nat,
        )
    }
}

/// The averaged radiance of one pixel and the state the stream is left in:
/// the total over all samples, divided by the sample count.
pub open spec fn sample_pixel_s(
    objs: Seq<crate::hittable::Hittable>,
    cam: Camera,
    px: u32,
    py: u32,
    width: u32,
    height: u32,
    samples: u32,
    s: u64,
) -> (Vec3, u64) {
    let acc: (Vec3, u64) = sample_pixel_rec(
        objs,
        cam,
        px,
        py,
        width,
        height,
        vzero_s(),
        s,
        samples as nat,
    );
    let n_fx: i64 = ((samples as int) * 65536) as i64;
    (
        Vec3 {
            x: fx_div_s(acc.0.x, n_fx),
            y: fx_div_s(acc.0.y, n_fx),
            z: fx_div_s(acc.0.z, n_fx),
        },
        acc.1,
    )
}

/// The random stream of one pixel, derived from the render seed and the
/// pixel's index so that pixels are independent of one another.
pub open spec fn pixel_seed_s(seed: u64, px: u32, py: u32, width: u32) -> u64 {
    seed ^ (((py as int) * (width as int) + (px as int)) as u64)
}

/// A running total stays non-negative through the remaining samples of a
/// well-formed scene.
proof fn lemma_sample_pixel_rec_nonneg(
    objs: Seq<crate::hittable::Hittable>,
    cam: Camera,
    px: u32,
    py: u32,
    width: u32,
    height: u32,
    total: Vec3,
    s: u64,
    n: nat,
)
    requires
        world_wf(objs),
        non_negative_v(total),
    ensures
        non_negative_v(sample_pixel_rec(objs, cam, px, py, width, height, total, s, n).0),
    decreases n,
{
    if n == 0 {
    } else {
        let jx: i64 = rand_unit_s(s);
        let s1: u64 = rand_next(s);
        let jy: i64 = rand_unit_s(s1);
        let s2: u64 = rand_next(s1);
        let x: i64 = ((px as int) * 65536 + jx) as i64;
        let y: i64 = ((py as int) * 65536 + jy) as i64;
        let ray: Ray = get_ray_s(cam, x, y, width, height);
        lemma_trace_rec_nonneg(
            objs,
            ray,
            crate::vec3::vone_s(),
            vzero_s(),
            s2,
            (crate::MAX_BOUNCE_COUNT + 1) as nat,
        );
        let traced: (Vec3, u64) = trace_s(objs, ray, s2);
        lemma_sample_pixel_rec_nonneg(
            objs,
            cam,
            px,
            py,
            width,
            height,
            vadd_s(total, traced.0),
            traced.1,
            (n - 1) as nat,
        );
    }
}

/// Average the given number of jittered path samples through one pixel.
/// The result and the final stream state are a function of scene, camera,
/// pixel, image size, sample count and seed alone; for a well-formed scene
/// no component is negative.
pub fn sample_pixel(
    world: &World,
    camera: &Camera,
    px: u32,
    py: u32,
    width: u32,
    height: u32,
    samples: u32,
    rng: &mut RandomSource,
) -> (r: Vec3)
    ensures
        r == sample_pixel_s(
            world.objects@,
            *camera,
            px,
            py,
            width,
            height,
            samples,
            old(rng).state,
        ).0,
        final(rng).state == sample_pixel_s(
            world.objects@,
            *camera,
            px,
            py,
            width,
            height,
            samples,
            old(rng).state,
        ).1,
        world_wf(world.objects@) ==> non_negative_v(r),
{
    let ghost s_init: u64 = rng.state;
    let ghost goal: (Vec3, u64) = sample_pixel_rec(
        world.objects@,
        *camera,
        px,
        py,
        width,
        height,
        vzero_s(),
        s_init,
        samples as nat,
    );
    let mut total: Vec3 = Vec3::zero();
    let mut k: u32 = 0;
    while k < samples
        invariant
            k <= samples,
            sample_pixel_rec(
                world.objects@,
                *camera,
                px,
                py,
                width,
                height,
                total,
                rng.state,
                (samples - k) as nat,
            ) == goal,
        decreases samples - k,
    {
        let jx: i64 = rng.unit_interval();
        let jy: i64 = rng.unit_interval();
        let x: i64 = (px as i64) * 65536 + jx;
        let y: i64 = (py as i64) * 65536 + jy;
        let ray: Ray = camera.get_ray(x, y, width, height);
        let sample: Vec3 = world.trace(ray, rng);
        total = total.vadd(sample);
        k = k + 1;
    }
    proof {
        if world_wf(world.objects@) {
            lemma_sample_pixel_rec_nonneg(
                world.objects@,
                *camera,
                px,
                py,
                width,
                height,
                vzero_s(),
                s_init,
                samples as nat,
            );
            lemma_fx_div_nonneg(goal.0.x, ((samples as int) * 65536) as i64);
            lemma_fx_div_nonneg(goal.0.y, ((samples as int) * 65536) as i64);
            lemma_fx_div_nonneg(goal.0.z, ((samples as int) * 65536) as i64);
        }
    }
    let n_fx: i64 = (samples as i64) * 65536;
    Vec3 { x: fx_div(total.x, n_fx), y: fx_div(total.y, n_fx), z: fx_div(total.z, n_fx) }
}

/// The radiance of one pixel of the final image.
pub open spec fn pixel_radiance_s(
    objs: Seq<crate::hittable::Hittable>,
    cam: Camera,
    px: u32,
    py: u32,
    width: u32,
    height: u32,
    samples: u32,
    seed: u64,
) -> Vec3 {
    sample_pixel_s(
        objs,
        cam,
        px,
        py,
        width,
        height,
        samples,
        pixel_seed_s(seed, px, py, width),
    ).0
}

/// Render the whole image in row-major order: one radiance value per pixel,
/// each pixel averaged over its own independent random stream.
pub fn render(
    world: &World,
    camera: &Camera,
    width: u32,
    height: u32,
    samples: u32,
    seed: u64,
) -> (r: Vec<Vec3>)
    requires
        (width as int) * (height as int) <= usize::MAX,
    ensures
        r@.len() == (width as int) * (height as int),
        forall|py: int, px: int|
            0 <= py < height && 0 <= px < width ==> #[trigger] r@[py * (width as int) + px]
                == pixel_radiance_s(
                world.objects@,
                *camera,
                px as u32,
                py as u32,
                width,
                height,
                samples,
                seed,
            ),
{
    let mut image: Vec<Vec3> = Vec::new();
    let mut py: u32 = 0;
    while py < height
        invariant
            py <= height,
            (width as int) * (height as int) <= usize::MAX,
            image@.len() == py * (width as int),
            forall|qy: int, qx: int|
                0 <= qy < py && 0 <= qx < width ==> #[trigger] image@[qy * (width as int) + qx]
                    == pixel_radiance_s(
                    world.objects@,
                    *camera,
                    qx as u32,
                    qy as u32,
                    width,
                    height,
                    samples,
                    seed,
                ),
        decreases height - py,
    {
        proof {
            assert((py + 1) * (width as int) <= (height as int) * (width as int))
                by (nonlinear_arith)
                requires
                    0 <= py < (height as int),
            ;
        }
        let mut px: u32 = 0;
        while px < width
            invariant
                px <= width,
                py < height,
                (width as int) * (height as int) <= usize::MAX,
                (py + 1) * (width as int) <= (height as int) * (width as int),
                image@.len() == py * (width as int) + px,
                forall|qy: int, qx: int|
                    0 <= qy < py && 0 <= qx < width ==> #[trigger] image@[qy * (width as int) + qx]
                        == pixel_radiance_s(
                        world.objects@,
                        *camera,
                        qx as u32,
                        qy as u32,
                        width,
                        height,
                        samples,
                        seed,
                    ),
                forall|qx: int|
                    0 <= qx < px ==> #[trigger] image@[py * (width as int) + qx] == pixel_radiance_s(
                        world.objects@,
                        *camera,
                        qx as u32,
                        py,
                        width,
                        height,
                        samples,
                        seed,
                    ),
            decreases width - px,
        {
            proof {
                assert((py as int) * (width as int) + (px as int) < 0x10000000000000000)
                    by (nonlinear_arith)
                    requires
                        0 <= py < 0x100000000,
                        0 <= (width as int) < 0x100000000,
                        0 <= px < 0x100000000,
                ;
            }
            let index: u64 = (py as u64) * (width as u64) + (px as u64);
            let mut rng: RandomSource = RandomSource::with_seed(seed ^ index);
            let value: Vec3 = sample_pixel(world, camera, px, py, width, height, samples, &mut rng);
            let ghost pre: Seq<Vec3> = image@;
            image.push(value);
            proof {
                assert(value == pixel_radiance_s(
                    world.objects@,
                    *camera,
                    px,
                    py,
                    width,
                    height,
                    samples,
                    seed,
                ));
                assert forall|qy: int, qx: int| 0 <= qy < py && 0 <= qx < width implies #[trigger]
                image@[qy * (width as int) + qx] == pixel_radiance_s(
                    world.objects@,
                    *camera,
                    qx as u32,
                    qy as u32,
                    width,
                    height,
                    samples,
                    seed,
                ) by {
                    assert(qy * (width as int) + qx < py * (width as int)) by (nonlinear_arith)
                        requires
                            0 <= qy < py,
                            0 <= qx < (width as int),
                    ;
                    assert(image@[qy * (width as int) + qx] == pre[qy * (width as int) + qx]);
                }
                assert forall|qx: int| 0 <= qx < px + 1 implies #[trigger] image@[py * (
                width as int) + qx] == pixel_radiance_s(
                    world.objects@,
                    *camera,
                    qx as u32,
                    py,
                    width,
                    height,
                    samples,
                    seed,
                ) by {
                    if qx < px {
                        assert(image@[py * (width as int) + qx] == pre[py * (width as int) + qx]);
                    } else {
                        assert(py * (width as int) + qx == pre.len());
                    }
                }
            }
            px = px + 1;
        }
        py = py + 1;
        proof {
            assert(image@.len() == py * (width as int)) by (nonlinear_arith)
                requires
                    image@.len() == (py - 1) * (width as int) + (width as int),
            ;
        }
    }
    proof {
        assert(image@.len() == (width as int) * (height as int)) by (nonlinear_arith)
            requires
                image@.len() == (height as int) * (width as int),
        ;
    }
    image
}

} // verus!
