//! The randomness source of the simulation: a seeded generator handing out
//! uniform integers, and a uniformly distributed unit direction built from
//! them by rejection sampling.
//!
//! Nothing is assumed about which values come out, only their range; every
//! decision taken on a random value is made by verified code that holds
//! for all values in that range.

use vstd::prelude::*;
use rand::Rng;
use rand::SeedableRng;
use crate::settings::FP_SCALE;
use crate::components::Direction;
use crate::util::{vector_normalize, NORMALIZE_MIN_SQ, abs_i};

verus! {

/// The standard generator of the rand crate, opaque to the verifier.
#[verifier::external_type_specification]
#[verifier::external_body]
pub struct ExStdRng(rand::rngs::StdRng);

/// A deterministic pseudo-random generator: one seed fixes the whole
/// stream, which makes simulation runs reproducible.
pub struct SimRng {
    rng: rand::rngs::StdRng,
}

impl SimRng {
    /// Relies on rand::rngs::StdRng through rand_core's
    /// SeedableRng::seed_from_u64: builds a generator whose stream is a
    /// function of the seed alone.
    #[verifier::external_body]
    pub fn seeded(seed: u64) -> SimRng {
        SimRng { rng: rand::rngs::StdRng::seed_from_u64(seed) }
    }

    /// Relies on rand::Rng::gen_range over the half-open range 0..n: the
    /// sample lies below n, and the call panics only on an empty range,
    /// which the precondition rules out.
    #[verifier::external_body]
    pub fn gen_below(&mut self, n: u64) -> (r: u64)
        requires
            n >= 1,
        ensures
            r < n,
    {
        self.rng.gen_range(0..n)
    }

    /// A uniform sample from the centered range [-bound, bound].
    pub fn gen_centered(&mut self, bound: i64) -> (r: i64)
        requires
            1 <= bound <= 1_000_000_000,
        ensures
            -bound <= r <= bound,
    {
        let raw = self.gen_below(2 * (bound as u64) + 1);
        (raw as i64) - bound
    }

    /// A unit direction drawn by rejection sampling: uniform points of the
    /// square are kept only inside the unit disk (and outside the tiny
    /// center where the grid is too coarse), so the angle is uniformly
    /// distributed. After a run of rejections whose probability is
    /// negligible, falls back to the positive x axis.
    pub fn gen_unit_direction(&mut self) -> (r: Direction)
        ensures
            r.is_unit(),
    {
        let mut tries: usize = 16;
        while tries > 0
            decreases tries,
        {
            tries = tries - 1;
            let gx = self.gen_centered(FP_SCALE);
            let gy = self.gen_centered(FP_SCALE);
            let cand = Direction { x: gx, y: gy };
            proof {
                assert(abs_i(cand.x as int) <= 2_000_000_000 && abs_i(cand.y as int)
                    <= 2_000_000_000);
            }
            let n = crate::util::dir_norm_sq(&cand);
            if NORMALIZE_MIN_SQ <= n && n <= FP_SCALE * FP_SCALE {
                return vector_normalize(&cand);
            }
        }
        let fallback = Direction { x: FP_SCALE, y: 0 };
        proof {
            crate::components::lemma_axis_direction_unit(fallback);
        }
        fallback
    }
}

} // verus!
