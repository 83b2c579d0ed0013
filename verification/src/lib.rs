//! A stochastic path-tracing core over 16.16 fixed-point arithmetic.
//!
//! The engine renders a static scene of spheres and triangles by casting
//! camera rays, resolving the nearest intersection, and following bounced
//! light paths with a material-driven Monte-Carlo integrator.  All scalar
//! arithmetic is 16.16 fixed point with saturation, so every computation is
//! a total, deterministic function of its inputs; each executable function
//! carries a contract that pins its result to a specification-level mirror
//! of the same arithmetic.

use vstd::prelude::*;

pub mod fx;
pub mod vec3;
pub mod ray;
pub mod material;
pub mod randomness;
pub mod hittable;
pub mod camera;
pub mod world;
pub mod sampler;

verus! {

/// Bounce budget of the integrator: a path is followed for at most
/// `MAX_BOUNCE_COUNT + 1` segments.
pub const MAX_BOUNCE_COUNT: u64 = 30;

/// Default number of camera rays averaged per pixel.
pub const RAYS_PER_PIXEL: u64 = 1000;

} // verus!
