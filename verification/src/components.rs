//! Per-agent components: location, travel direction, status flags and the
//! per-tick neighbor summary.
//!
//! Coordinates are fixed point (see `FP_SCALE`): one pixel is `FP_SCALE`
//! units, so all component arithmetic is exact integer arithmetic.

use vstd::prelude::*;
use crate::settings::FP_SCALE;

verus! {

/// How far the squared length of a direction vector may stray from one
/// (in fixed-point units) and the vector still count as unit length.
/// 25/10^6 is well inside the documented tolerance of 10^-4.
pub const UNIT_TOL_FP: i64 = 25;

/// Current location of an agent in the plane, in [0, W) x [0, H).
#[derive(Clone, Copy, Debug, PartialEq, Eq, Structural)]
pub struct Position {
    /// Horizontal coordinate, fixed point.
    pub x: i64,
    /// Vertical coordinate, fixed point.
    pub y: i64,
}

/// Intended travel direction of an agent; unit length except before the
/// first steering pass ever ran for the agent.
#[derive(Clone, Copy, Debug, PartialEq, Eq, Structural)]
pub struct Direction {
    /// Horizontal component, fixed point.
    pub x: i64,
    /// Vertical component, fixed point.
    pub y: i64,
}

impl Direction {
    /// Squared Euclidean length, exact.
    pub open spec fn norm_sq(self) -> int {
        self.x * self.x + self.y * self.y
    }

    /// The vector has length 1 up to `UNIT_TOL_FP` fixed-point units.
    pub open spec fn is_unit(self) -> bool {
        &&& (FP_SCALE - UNIT_TOL_FP) * (FP_SCALE - UNIT_TOL_FP) <= self.norm_sq()
        &&& self.norm_sq() <= (FP_SCALE + UNIT_TOL_FP) * (FP_SCALE + UNIT_TOL_FP)
    }
}

/// A unit direction's squared length lies within one part in 10^4 of
/// one: the grid tolerance `UNIT_TOL_FP` the steering phase guarantees is
/// four times finer than the documented bound.
pub proof fn lemma_unit_direction_tolerance(d: Direction)
    requires
        d.is_unit(),
    ensures
        (FP_SCALE - 100) * (FP_SCALE - 100) <= d.norm_sq(),
        d.norm_sq() <= (FP_SCALE + 100) * (FP_SCALE + 100),
{
    assert((FP_SCALE - UNIT_TOL_FP) * (FP_SCALE - UNIT_TOL_FP) == 999_975 * 999_975);
    assert((FP_SCALE + UNIT_TOL_FP) * (FP_SCALE + UNIT_TOL_FP) == 1_000_025 * 1_000_025);
    assert((FP_SCALE - 100) * (FP_SCALE - 100) == 999_900 * 999_900);
    assert((FP_SCALE + 100) * (FP_SCALE + 100) == 1_000_100 * 1_000_100);
}

/// A direction lying on the positive or negative x or y axis with
/// coordinate magnitude `FP_SCALE` is a unit direction.
pub proof fn lemma_axis_direction_unit(d: Direction)
    requires
        (d.x == FP_SCALE || d.x == -FP_SCALE || d.x == 0),
        (d.y == FP_SCALE || d.y == -FP_SCALE || d.y == 0),
        (d.x == 0) != (d.y == 0),
    ensures
        d.is_unit(),
{
    assert(d.x * d.x == 1_000_000 * 1_000_000 || d.x * d.x == (-1_000_000) * (-1_000_000) || d.x
        * d.x == 0 * 0);
    assert(d.y * d.y == 1_000_000 * 1_000_000 || d.y * d.y == (-1_000_000) * (-1_000_000) || d.y
        * d.y == 0 * 0);
    assert((FP_SCALE - UNIT_TOL_FP) * (FP_SCALE - UNIT_TOL_FP) == 999_975 * 999_975);
    assert((FP_SCALE + UNIT_TOL_FP) * (FP_SCALE + UNIT_TOL_FP) == 1_000_025 * 1_000_025);
}

/// Epidemic role and behavior flags of one agent.
#[derive(Clone, Copy, Debug, PartialEq, Eq, Structural)]
pub struct Status {
    /// Index of the agent in the population arrays.
    pub id: usize,
    /// The agent is a contagious carrier; moves from false to true only.
    pub is_infected: bool,
    /// Long-distance mover: skips local motion this tick. Reserved; stays
    /// false after init.
    pub is_traveling: bool,
    /// The agent practices distancing: it steers away from neighbors and
    /// moves at reduced speed. Fixed at init.
    pub is_dist_kept: bool,
}

/// Per-tick scratch summary of an agent's neighborhood; written by the
/// neighbor scan and reset at the end of the infection phase.
#[derive(Clone, Copy, Debug)]
pub struct NeighborList {
    /// Aggregated direction of the neighbors within detection range, or
    /// `None` when no neighbor was in range this tick.
    pub neighbors_direction: Option<Direction>,
    /// A contagious neighbor sat within the transmission radius this tick.
    pub any_neighbor_infected: bool,
}

impl NeighborList {
    /// The scratch state a tick starts from and ends at.
    pub open spec fn is_clear(self) -> bool {
        &&& self.neighbors_direction is None
        &&& !self.any_neighbor_infected
    }

    /// Builds cleared scratch state.
    pub fn cleared() -> (r: NeighborList)
        ensures
            r.is_clear(),
    {
        NeighborList { neighbors_direction: None, any_neighbor_infected: false }
    }
}

} // verus!
