//! Configuration constants and the runtime parameter set of the simulation.
//!
//! Quantities measured in pixels, pixels per tick or probabilities are held
//! in fixed point: the real value times `FP_SCALE`.

use vstd::prelude::*;

verus! {

/// One unit in fixed-point representation: values are scaled by 10^6.
pub const FP_SCALE: i64 = 1_000_000;

/// Largest fixed-point plane dimension the kernel accepts (2000 pixels).
/// Squared coordinate differences then stay below `i64::MAX`.
pub const MAX_DIM_FP: i64 = 2_000_000_000;

/// Smallest fixed-point plane dimension the kernel accepts (21 pixels).
/// One wrap adjustment per axis then suffices after a motion step.
pub const MIN_DIM_FP: i64 = 21_000_000;

/// Largest base speed the kernel accepts (10 pixels per reference frame).
pub const MAX_SPEED_FP: i64 = 10_000_000;

/// Upper clamp for a tick's delta time: 1/30 second in fixed point.
pub const DT_MAX_FP: i64 = 33_333;

/// Simulation plane width in pixels.
pub const WINDOW_WIDTH: u32 = 1280;

/// Simulation plane width W, fixed point.
pub const WINDOW_WIDTH_FP: i64 = 1_280_000_000;

/// Simulation plane height in pixels.
pub const WINDOW_HEIGHT: u32 = 720;

/// Simulation plane height H, fixed point.
pub const WINDOW_HEIGHT_FP: i64 = 720_000_000;

/// Window title of the simulation host.
pub const TITLE: &'static str = "Covid-19 Simulation";

/// Number of agents created at startup.
pub const POPULATION_NUM: usize = 200;

/// Visual radius of one agent, fixed point (3.0 px).
pub const ENTITY_RADIUS_FP: i64 = 3_000_000;

/// Base speed multiplier, fixed point (2.0 px per reference frame).
pub const ENTITY_MAX_SPEED_FP: i64 = 2_000_000;

/// Speed scale applied to distancing agents, fixed point (0.2).
pub const POP_DIST_KEPT_WALK_SPEED_FACTOR_FP: i64 = 200_000;

/// Probability that an agent practices distancing at init, fixed point (0.5).
pub const DIST_KEPT_INIT_PORTION_FP: i64 = 500_000;

/// Probability that an agent starts out infected, fixed point (0.05).
pub const INITIAL_CHANCE_FP: i64 = 50_000;

/// Transmission radius in pixels, fixed point (20.0 px). Detection uses
/// 1.5 times this radius.
pub const INFECTION_RADIUS_FP: i64 = 20_000_000;

/// Probability of transmission per exposed tick, fixed point (0.2).
pub const INFECTION_CHANCE_FP: i64 = 200_000;

/// The parameter set the kernel runs under; every field is fixed point.
#[derive(Clone, Copy, Debug)]
pub struct Params {
    /// Plane width W.
    pub width_fp: i64,
    /// Plane height H.
    pub height_fp: i64,
    /// Agent visual radius.
    pub entity_radius_fp: i64,
    /// Base speed multiplier.
    pub entity_max_speed_fp: i64,
    /// Speed scale for distancing agents, in [0, 1].
    pub walk_speed_factor_fp: i64,
    /// P(is_dist_kept at init), in [0, 1].
    pub dist_kept_portion_fp: i64,
    /// P(is_infected at init), in [0, 1].
    pub initial_chance_fp: i64,
    /// Transmission radius R; detection radius is 1.5 R.
    pub infection_radius_fp: i64,
    /// P(transmission per exposed tick), in [0, 1].
    pub infection_chance_fp: i64,
}

impl Params {
    /// Ranges under which every arithmetic step of the pipeline stays in
    /// bounds: plane dimensions wide enough for a single wrap adjustment,
    /// radii and dimensions small enough that squared distances fit in
    /// `i64`, probabilities and the distancing factor inside [0, 1].
    pub open spec fn valid(self) -> bool {
        &&& MIN_DIM_FP <= self.width_fp <= MAX_DIM_FP
        &&& MIN_DIM_FP <= self.height_fp <= MAX_DIM_FP
        &&& 0 <= self.entity_radius_fp <= MAX_DIM_FP
        &&& 0 <= self.entity_max_speed_fp <= MAX_SPEED_FP
        &&& 0 <= self.walk_speed_factor_fp <= FP_SCALE
        &&& 0 <= self.dist_kept_portion_fp <= FP_SCALE
        &&& 0 <= self.initial_chance_fp <= FP_SCALE
        &&& 0 <= self.infection_radius_fp <= MAX_DIM_FP
        &&& 0 <= self.infection_chance_fp <= FP_SCALE
    }

    /// The default configuration listed in the project settings.
    pub open spec fn spec_standard() -> Params {
        Params {
            width_fp: WINDOW_WIDTH_FP,
            height_fp: WINDOW_HEIGHT_FP,
            entity_radius_fp: ENTITY_RADIUS_FP,
            entity_max_speed_fp: ENTITY_MAX_SPEED_FP,
            walk_speed_factor_fp: POP_DIST_KEPT_WALK_SPEED_FACTOR_FP,
            dist_kept_portion_fp: DIST_KEPT_INIT_PORTION_FP,
            initial_chance_fp: INITIAL_CHANCE_FP,
            infection_radius_fp: INFECTION_RADIUS_FP,
            infection_chance_fp: INFECTION_CHANCE_FP,
        }
    }

    /// Builds the default configuration.
    pub fn standard() -> (r: Params)
        ensures
            r == Params::spec_standard(),
            r.valid(),
    {
        Params {
            width_fp: WINDOW_WIDTH_FP,
            height_fp: WINDOW_HEIGHT_FP,
            entity_radius_fp: ENTITY_RADIUS_FP,
            entity_max_speed_fp: ENTITY_MAX_SPEED_FP,
            walk_speed_factor_fp: POP_DIST_KEPT_WALK_SPEED_FACTOR_FP,
            dist_kept_portion_fp: DIST_KEPT_INIT_PORTION_FP,
            initial_chance_fp: INITIAL_CHANCE_FP,
            infection_radius_fp: INFECTION_RADIUS_FP,
            infection_chance_fp: INFECTION_CHANCE_FP,
        }
    }
}

} // verus!
