//! The per-task random stream and the unit-sphere sampler.
//!
//! Randomness comes from the WyRand generator of the `fastrand` crate,
//! reached through a single trusted step function.  The stream's state is a
//! plain `u64` held by the library itself, and the step's result is named by
//! `wyrand_of`, so every draw — and hence every traced path — is pinned as a
//! deterministic function of the seed.

use vstd::prelude::*;
use crate::fx::FX_ONE;
use crate::vec3::{dot_s, normalize_s, Vec3};

verus! {

/// The state advanced to and the value produced by one WyRand step from the
/// given state.  WyRand's output is a function of its 64-bit state alone.
pub uninterp spec fn wyrand_of(state: u64) -> (u64, u64);

/// Relies on `fastrand::Rng`: `with_seed` stores the given state verbatim,
/// `u64(..)` over the full range advances the state by one WyRand step and
/// returns the raw WyRand output, and `get_seed` reads the state back; all
/// three depend on the 64-bit state alone.
#[verifier::external_body]
fn wyrand_step(state: u64) -> (r: (u64, u64))
    ensures
        r == wyrand_of(state),
{
    let mut g = fastrand::Rng::with_seed(state);
    let out = g.u64(..);
    (g.get_seed(), out)
}

/// The state after one draw.
pub open spec fn rand_next(s: u64) -> u64 {
    wyrand_of(s).0
}

/// The raw 64-bit value of one draw.
pub open spec fn rand_out(s: u64) -> u64 {
    wyrand_of(s).1
}

/// The fixed-point value in [0, 1) produced by one draw.
pub open spec fn rand_unit_s(s: u64) -> i64 {
    (rand_out(s) % 65536) as i64
}

/// The fixed-point value in [-1, 1) produced by one draw.
pub open spec fn rand_symmetric_s(s: u64) -> i64 {
    ((rand_out(s) % 131072) - 65536) as i64
}

/// A seedable random stream, owned by one rendering task.
#[derive(Clone, Copy, Debug, PartialEq, Eq, Structural)]
pub struct RandomSource {
    pub state: u64,
}

impl RandomSource {
    /// A stream starting from the given seed.
    pub fn with_seed(seed: u64) -> (r: RandomSource)
        ensures
            r.state == seed,
    {
        RandomSource { state: seed }
    }

    /// One raw draw.
    pub fn next_u64(&mut self) -> (r: u64)
        ensures
            r == rand_out(old(self).state),
            final(self).state == rand_next(old(self).state),
    {
        let step: (u64, u64) = wyrand_step(self.state);
        self.state = step.0;
        step.1
    }

    /// A uniform fixed-point value in [0, 1).
    pub fn unit_interval(&mut self) -> (r: i64)
        ensures
            r == rand_unit_s(old(self).state),
            final(self).state == rand_next(old(self).state),
            0 <= r < FX_ONE,
    {
        let raw: u64 = self.next_u64();
        (raw % 65536) as i64
    }

    /// A uniform fixed-point value in [-1, 1).
    pub fn symmetric_unit(&mut self) -> (r: i64)
        ensures
            r == rand_symmetric_s(old(self).state),
            final(self).state == rand_next(old(self).state),
            -FX_ONE <= r < FX_ONE,
    {
        let raw: u64 = self.next_u64();
        (raw % 131072) as i64 - 65536
    }
}

/// Draws bounded by one rejection-sampling pass: three coordinates.
pub open spec fn draw_vec_s(s: u64) -> (Vec3, u64) {
    let x: i64 = rand_symmetric_s(s);
    let s1: u64 = rand_next(s);
    let y: i64 = rand_symmetric_s(s1);
    let s2: u64 = rand_next(s1);
    let z: i64 = rand_symmetric_s(s2);
    let s3: u64 = rand_next(s2);
    (Vec3 { x, y, z }, s3)
}

/// Rejection sampling of a unit vector: candidates are drawn uniformly from
/// the cube [-1, 1)^3, those with squared length above 1 are rejected, and
/// the first survivor is normalized.  The pass budget bounds the loop; when
/// it is exhausted the last candidate is normalized regardless, so the
/// sampler is total.
pub open spec fn sample_sphere_s(s: u64, fuel: nat) -> (Vec3, u64)
    decreases fuel,
{
    let drawn: (Vec3, u64) = draw_vec_s(s);
    if dot_s(drawn.0, drawn.0) <= FX_ONE || fuel == 0 {
        (normalize_s(drawn.0), drawn.1)
    } else {
        sample_sphere_s(drawn.1, (fuel - 1) as nat)
    }
}

/// The rejection budget of `vector3`.  Each pass accepts with probability
/// about pi/6, so exhausting the budget is practically unreachable.
pub const SAMPLE_PASSES: u64 = 64;

/// A random vector on the unit sphere, by rejection sampling.
pub fn vector3(rng: &mut RandomSource) -> (r: Vec3)
    ensures
        r == sample_sphere_s(old(rng).state, SAMPLE_PASSES as nat).0,
        final(rng).state == sample_sphere_s(old(rng).state, SAMPLE_PASSES as nat).1,
{
    let ghost target: (Vec3, u64) = sample_sphere_s(rng.state, SAMPLE_PASSES as nat);
    let mut fuel: u64 = SAMPLE_PASSES;
    let result: Vec3;
    loop
        invariant_except_break
            fuel <= SAMPLE_PASSES,
            sample_sphere_s(rng.state, fuel as nat) == target,
        ensures
            result == target.0,
            rng.state == target.1,
        decreases fuel,
    {
        let ghost s0: u64 = rng.state;
        let x: i64 = rng.symmetric_unit();
        let y: i64 = rng.symmetric_unit();
        let z: i64 = rng.symmetric_unit();
        let candidate: Vec3 = Vec3 { x, y, z };
        proof {
            assert(draw_vec_s(s0) == (candidate, rng.state));
        }
        if candidate.length_squared() <= FX_ONE || fuel == 0 {
            result = candidate.normalize();
            break;
        }
        fuel = fuel - 1;
    }
    result
}

} // verus!
