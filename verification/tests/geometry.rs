//! Sphere and triangle intersection behaviour.

use pathtracer::hittable::{Hittable, HittableType};
use pathtracer::material::Material;
use pathtracer::ray::Ray;
use pathtracer::vec3::Vec3;
use pathtracer::world::World;

const ONE: i64 = 65536;

fn v(x: i64, y: i64, z: i64) -> Vec3 {
    Vec3 { x: x * ONE, y: y * ONE, z: z * ONE }
}

fn plain_material() -> Material {
    Material {
        color: v(1, 1, 1),
        emission_color: v(0, 0, 0),
        emission_strength: 0,
        smoothness: 0,
        specular_probability: 0,
        specular_color: v(1, 1, 1),
    }
}

fn sphere(center: Vec3, radius: i64) -> Hittable {
    Hittable {
        typ: HittableType::Sphere { position: center, radius },
        material: plain_material(),
    }
}

fn flat_triangle(a: Vec3, b: Vec3, c: Vec3) -> Hittable {
    let n = Vec3 { x: 0, y: 0, z: -ONE };
    Hittable {
        typ: HittableType::Triangle { a, b, c, na: n, nb: n, nc: n },
        material: plain_material(),
    }
}

#[test]
fn sphere_head_on_hits_at_center_distance_minus_radius() {
    // from the origin toward a sphere at distance 5 with radius 1:
    // the hit lies at exactly |origin - center| - radius = 4
    let s = sphere(v(0, 0, 5), ONE);
    let ray = Ray { origin: v(0, 0, 0), direction: v(0, 0, 1) };
    let hit = s.intersect(ray).expect("head-on ray must hit");
    assert_eq!(hit.distance, 4 * ONE);
    assert_eq!(hit.position, v(0, 0, 4));
    // the normal points back along the axis: parallel to (hit - center)
    assert_eq!(hit.normal, Vec3 { x: 0, y: 0, z: -ONE });
}

#[test]
fn sphere_from_inside_reports_no_hit() {
    // documented simplification: the near root lies behind the origin
    let s = sphere(v(0, 0, 0), 2 * ONE);
    let ray = Ray { origin: v(0, 0, 0), direction: v(0, 0, 1) };
    assert!(s.intersect(ray).is_none());
    let s2 = sphere(v(0, 0, 1), 2 * ONE);
    assert!(s2.intersect(ray).is_none());
}

#[test]
fn sphere_behind_or_aside_misses() {
    let behind = sphere(v(0, 0, -5), ONE);
    let ray = Ray { origin: v(0, 0, 0), direction: v(0, 0, 1) };
    assert!(behind.intersect(ray).is_none());
    let aside = sphere(v(0, 3, 5), ONE);
    assert!(aside.intersect(ray).is_none());
}

#[test]
fn triangle_front_face_hit_is_barycentric_consistent() {
    // a triangle in the z = 1 plane containing the z axis strictly inside
    let t = flat_triangle(v(-2, -1, 1), v(0, 2, 1), v(2, -1, 1));
    let ray = Ray { origin: v(0, 0, 0), direction: v(0, 0, 1) };
    let hit = t.intersect(ray).expect("front-face ray must hit");
    // distance 1, up to the truncation of the reciprocal determinant
    assert!((hit.distance - ONE).abs() <= 8, "distance {}", hit.distance);
    assert_eq!(hit.position.x, 0);
    assert_eq!(hit.position.y, 0);
    assert!((hit.position.z - ONE).abs() <= 8);
    // all vertex normals agree, so the interpolation is exact
    assert_eq!(hit.normal, Vec3 { x: 0, y: 0, z: -ONE });
}

#[test]
fn triangle_back_face_is_culled() {
    // the same geometry with opposite winding: the ray now approaches from
    // the culled side and misses despite the geometric overlap
    let t = flat_triangle(v(-2, -1, 1), v(2, -1, 1), v(0, 2, 1));
    let ray = Ray { origin: v(0, 0, 0), direction: v(0, 0, 1) };
    assert!(t.intersect(ray).is_none());
}

#[test]
fn triangle_outside_weights_rejected() {
    let t = flat_triangle(v(-2, -1, 1), v(0, 2, 1), v(2, -1, 1));
    // passes the plane well outside the triangle
    let ray = Ray { origin: v(5, 5, 0), direction: v(0, 0, 1) };
    assert!(t.intersect(ray).is_none());
}

#[test]
fn degenerate_triangle_is_suppressed() {
    let p = v(1, 1, 1);
    let t = flat_triangle(p, p, p);
    let ray = Ray { origin: v(0, 0, 0), direction: v(0, 0, 1) };
    assert!(t.intersect(ray).is_none());
}

#[test]
fn nearest_hit_selection_two_primitives() {
    // two spheres along one ray at distances 2 and 5: the nearer one wins
    let near = sphere(v(0, 0, 3), ONE);
    let far = sphere(v(0, 0, 7), 2 * ONE);
    let ray = Ray { origin: v(0, 0, 0), direction: v(0, 0, 1) };

    let world = World::new(vec![near, far]);
    let hit = world.intersect(ray).expect("must hit");
    assert_eq!(hit.distance, 2 * ONE);

    // the order of the scene does not change the winner
    let world_swapped = World::new(vec![far, near]);
    let hit2 = world_swapped.intersect(ray).expect("must hit");
    assert_eq!(hit2.distance, 2 * ONE);
}

#[test]
fn nearest_hit_tie_keeps_first() {
    let mut a = sphere(v(0, 0, 3), ONE);
    a.material.emission_strength = 111;
    let mut b = sphere(v(0, 0, 3), ONE);
    b.material.emission_strength = 222;
    let ray = Ray { origin: v(0, 0, 0), direction: v(0, 0, 1) };
    let hit = World::new(vec![a, b]).intersect(ray).expect("must hit");
    assert_eq!(hit.material.emission_strength, 111);
}

#[test]
fn empty_scene_misses() {
    let world = World::new(vec![]);
    let ray = Ray { origin: v(0, 0, 0), direction: v(0, 0, 1) };
    assert!(world.intersect(ray).is_none());
}

#[test]
fn ray_follow_walks_the_direction() {
    let ray = Ray { origin: v(1, 2, 3), direction: v(0, 0, 1) };
    assert_eq!(ray.follow(2 * ONE), v(1, 2, 5));
}
