//! The integrator, the random stream, the camera and the sampler.

use pathtracer::camera::{Camera, Quat};
use pathtracer::hittable::{Hittable, HittableType};
use pathtracer::material::Material;
use pathtracer::randomness::{vector3, RandomSource};
use pathtracer::ray::Ray;
use pathtracer::sampler::{render, sample_pixel};
use pathtracer::vec3::Vec3;
use pathtracer::world::World;

const ONE: i64 = 65536;

fn v(x: i64, y: i64, z: i64) -> Vec3 {
    Vec3 { x: x * ONE, y: y * ONE, z: z * ONE }
}

fn diffuse_material(color: Vec3) -> Material {
    Material {
        color,
        emission_color: v(0, 0, 0),
        emission_strength: 0,
        smoothness: 0,
        specular_probability: 0,
        specular_color: v(1, 1, 1),
    }
}

fn emissive_material(strength: i64) -> Material {
    Material {
        color: v(0, 0, 0),
        emission_color: v(1, 1, 1),
        emission_strength: strength,
        smoothness: 0,
        specular_probability: 0,
        specular_color: v(1, 1, 1),
    }
}

/// A big emissive triangle in the z = 1 plane, facing the origin.
fn emissive_wall(strength: i64) -> Hittable {
    let n = Vec3 { x: 0, y: 0, z: -ONE };
    Hittable {
        typ: HittableType::Triangle {
            a: v(-20, -20, 1),
            b: v(0, 30, 1),
            c: v(20, -20, 1),
            na: n,
            nb: n,
            nc: n,
        },
        material: emissive_material(strength),
    }
}

#[test]
fn wyrand_stream_behaves() {
    let mut rng = RandomSource::with_seed(7);
    let first = rng.next_u64();
    // the step really advances: neither the output nor the state echoes the
    // seed back
    assert_ne!(first, 7);
    assert_ne!(rng.state, 7);
    // same seed, same stream
    let mut rng2 = RandomSource::with_seed(7);
    assert_eq!(rng2.next_u64(), first);
    assert_eq!(rng2.state, rng.state);
    // different seeds diverge
    let mut rng3 = RandomSource::with_seed(8);
    assert_ne!(rng3.next_u64(), first);
}

#[test]
fn uniform_draws_stay_in_range() {
    let mut rng = RandomSource::with_seed(42);
    for _ in 0..1000 {
        let u = rng.unit_interval();
        assert!((0..ONE).contains(&u));
        let s = rng.symmetric_unit();
        assert!((-ONE..ONE).contains(&s));
    }
}

#[test]
fn unit_sphere_sampler_is_deterministic_and_near_unit() {
    let mut rng = RandomSource::with_seed(5);
    let a = vector3(&mut rng);
    let mut rng2 = RandomSource::with_seed(5);
    let b = vector3(&mut rng2);
    assert_eq!(a, b);
    assert_eq!(rng.state, rng2.state);
    // normalized up to fixed-point rounding
    let len_sq = a.length_squared();
    assert!((len_sq - ONE).abs() < 2000, "length squared {}", len_sq);
}

#[test]
fn miss_background_straight_down_is_half() {
    // empty scene, direction straight down: the throughput of one is
    // darkened once to exactly one half in every component
    let world = World::new(vec![]);
    let ray = Ray { origin: v(0, 0, 0), direction: Vec3 { x: 0, y: -ONE, z: 0 } };
    let mut rng = RandomSource::with_seed(1);
    let light = world.trace(ray, &mut rng);
    assert_eq!(light, Vec3 { x: ONE / 2, y: ONE / 2, z: ONE / 2 });
    // a miss consumes no randomness
    assert_eq!(rng.state, 1);
}

#[test]
fn miss_background_upward_blends_sky() {
    let world = World::new(vec![]);
    let ray = Ray { origin: v(0, 0, 0), direction: Vec3 { x: 0, y: ONE, z: 0 } };
    let mut rng = RandomSource::with_seed(1);
    let light = world.trace(ray, &mut rng);
    // straight up: the blend factor (1 - y)^2 is zero, leaving the sky color
    assert_eq!(light, Vec3 { x: 0, y: 39065, z: 56285 });
}

#[test]
fn trace_is_idempotent_for_equal_seeds() {
    let scene = World::new(vec![
        emissive_wall(ONE),
        Hittable {
            typ: HittableType::Sphere { position: v(0, 0, -3), radius: ONE },
            material: diffuse_material(v(1, 1, 1)),
        },
    ]);
    let ray = Ray { origin: v(0, 0, -1), direction: Vec3 { x: 0, y: 0, z: ONE } };
    for seed in [0u64, 1, 99, u64::MAX] {
        let mut rng_a = RandomSource::with_seed(seed);
        let mut rng_b = RandomSource::with_seed(seed);
        let a = scene.trace(ray, &mut rng_a);
        let b = scene.trace(ray, &mut rng_b);
        assert_eq!(a, b);
        assert_eq!(rng_a.state, rng_b.state);
    }
}

#[test]
fn traced_radiance_is_never_negative() {
    let scene = World::new(vec![
        emissive_wall(2 * ONE),
        Hittable {
            typ: HittableType::Sphere { position: v(0, 1, 4), radius: 2 * ONE },
            material: Material {
                color: v(1, 0, 0),
                emission_color: v(0, 1, 0),
                emission_strength: ONE / 4,
                smoothness: ONE / 2,
                specular_probability: ONE / 3,
                specular_color: v(1, 1, 1),
            },
        },
    ]);
    let mut rng = RandomSource::with_seed(12345);
    for i in -4i64..5 {
        for j in -4i64..5 {
            let dir = Vec3 { x: i * ONE / 4, y: j * ONE / 4, z: ONE }.normalize();
            let ray = Ray { origin: v(0, 0, -2), direction: dir };
            let light = scene.trace(ray, &mut rng);
            assert!(light.x >= 0 && light.y >= 0 && light.z >= 0);
        }
    }
}

#[test]
fn zero_throughput_terminates_with_emission_only() {
    // a black, non-emissive wall: the first bounce zeroes the throughput,
    // so the trace ends with no light at all
    let scene = World::new(vec![emissive_wall(0)]);
    let ray = Ray { origin: v(0, 0, 0), direction: Vec3 { x: 0, y: 0, z: ONE } };
    let mut rng = RandomSource::with_seed(3);
    let light = scene.trace(ray, &mut rng);
    assert_eq!(light, Vec3 { x: 0, y: 0, z: 0 });
}

#[test]
fn emissive_hit_contributes_at_least_its_emission() {
    let scene = World::new(vec![emissive_wall(3 * ONE)]);
    let ray = Ray { origin: v(0, 0, 0), direction: Vec3 { x: 0, y: 0, z: ONE } };
    let mut rng = RandomSource::with_seed(3);
    let light = scene.trace(ray, &mut rng);
    // first hit adds emission 3 at full throughput; later bounces only add
    assert!(light.x >= 3 * ONE && light.y >= 3 * ONE && light.z >= 3 * ONE);
}

#[test]
fn camera_center_ray_points_forward() {
    let cam = Camera {
        field_of_view: 60 * ONE,
        position: v(1, 2, 3),
        rotation: Quat::identity(),
    };
    let (w, h) = (640u32, 480u32);
    let ray = cam.get_ray((w as i64) * ONE / 2, (h as i64) * ONE / 2, w, h);
    assert_eq!(ray.origin, v(1, 2, 3));
    assert_eq!(ray.direction, Vec3 { x: 0, y: 0, z: ONE });
}

#[test]
fn camera_corner_rays_diverge() {
    let cam = Camera {
        field_of_view: 60 * ONE,
        position: v(0, 0, 0),
        rotation: Quat::identity(),
    };
    let (w, h) = (100u32, 100u32);
    let top_right = cam.get_ray((w as i64) * ONE, (h as i64) * ONE, w, h);
    assert!(top_right.direction.x > 0);
    assert!(top_right.direction.y > 0);
    assert!(top_right.direction.z > 0);
    let bottom_left = cam.get_ray(0, 0, w, h);
    assert!(bottom_left.direction.x < 0);
    assert!(bottom_left.direction.y < 0);
}

#[test]
fn camera_transforms_are_inverse_for_identity_rotation() {
    let cam = Camera {
        field_of_view: 60 * ONE,
        position: v(5, -7, 2),
        rotation: Quat::identity(),
    };
    let p = v(3, 4, 5);
    let moved = cam.local_to_world().transform_point(p);
    assert_eq!(moved, v(8, -3, 7));
    let back = cam.world_to_local().transform_point(moved);
    assert_eq!(back, p);
}

#[test]
fn camera_transforms_roundtrip_under_rotation() {
    // a quarter turn about the y axis: sin and cos of 45 degrees
    let half: i64 = 46341;
    let cam = Camera {
        field_of_view: 60 * ONE,
        position: v(1, 1, 1),
        rotation: Quat { x: 0, y: half, z: 0, w: half },
    };
    let p = v(2, 3, 4);
    let moved = cam.local_to_world().transform_point(p);
    let back = cam.world_to_local().transform_point(moved);
    let err = (back.x - p.x).abs() + (back.y - p.y).abs() + (back.z - p.z).abs();
    assert!(err < 2000, "round-trip error {}", err);
}

#[test]
fn end_to_end_emissive_wall_lights_center_pixel() {
    // one emissive triangle at z = 1 with unit emission, camera at the
    // origin facing +z: after many samples the center pixel is lit
    let scene = World::new(vec![emissive_wall(ONE)]);
    let cam = Camera {
        field_of_view: 60 * ONE,
        position: v(0, 0, 0),
        rotation: Quat::identity(),
    };
    let (w, h) = (64u32, 64u32);
    let mut rng = RandomSource::with_seed(2024);
    let radiance = sample_pixel(&scene, &cam, 32, 32, w, h, 128, &mut rng);
    assert!(radiance.x > 0 && radiance.y > 0 && radiance.z > 0);
    // the first hit alone already contributes the full unit emission
    assert!(radiance.x >= ONE / 2, "radiance {}", radiance.x);
}

#[test]
fn sample_pixel_is_deterministic() {
    let scene = World::new(vec![emissive_wall(ONE)]);
    let cam = Camera {
        field_of_view: 60 * ONE,
        position: v(0, 0, 0),
        rotation: Quat::identity(),
    };
    let mut rng_a = RandomSource::with_seed(9);
    let mut rng_b = RandomSource::with_seed(9);
    let a = sample_pixel(&scene, &cam, 3, 5, 16, 16, 8, &mut rng_a);
    let b = sample_pixel(&scene, &cam, 3, 5, 16, 16, 8, &mut rng_b);
    assert_eq!(a, b);
}

#[test]
fn render_covers_every_pixel_deterministically() {
    let scene = World::new(vec![emissive_wall(ONE)]);
    let cam = Camera {
        field_of_view: 60 * ONE,
        position: v(0, 0, 0),
        rotation: Quat::identity(),
    };
    let image_a = render(&scene, &cam, 4, 4, 4, 77);
    let image_b = render(&scene, &cam, 4, 4, 4, 77);
    assert_eq!(image_a.len(), 16);
    assert_eq!(image_a, image_b);
    for pixel in &image_a {
        assert!(pixel.x >= 0 && pixel.y >= 0 && pixel.z >= 0);
    }
}
