//! The population store and the per-tick pipeline.
//!
//! Agents live in parallel dense arrays indexed 0..N-1: position, direction,
//! status and per-tick neighbor scratch. A tick runs the four phases in
//! order: neighbor scan, steering, infection roll, motion with toroidal
//! wrap; the scratch fields are cleared again before the tick ends.

use vstd::prelude::*;
use crate::components::{Direction, NeighborList, Position, Status, lemma_axis_direction_unit};
use crate::rng::SimRng;
use crate::settings::{Params, DT_MAX_FP, FP_SCALE};
use crate::systems::exposed;

verus! {

/// A point lies inside the plane [0, W) x [0, H).
pub open spec fn in_plane(p: Position, params: Params) -> bool {
    &&& 0 <= p.x < params.width_fp
    &&& 0 <= p.y < params.height_fp
}

/// The whole population, stored as parallel arrays indexed by agent.
pub struct Population {
    /// Location of each agent.
    pub positions: Vec<Position>,
    /// Travel direction of each agent.
    pub directions: Vec<Direction>,
    /// Epidemic role and behavior flags of each agent.
    pub statuses: Vec<Status>,
    /// Per-tick neighbor scratch of each agent.
    pub neighbor_lists: Vec<NeighborList>,
}

impl Population {
    /// Number of agents.
    pub open spec fn n(self) -> int {
        self.positions@.len() as int
    }

    /// Structural soundness: the arrays run in parallel, ids match the
    /// index, every position lies in the plane and every direction is a
    /// unit vector.
    pub open spec fn wf(self, params: Params) -> bool {
        &&& self.directions@.len() == self.n()
        &&& self.statuses@.len() == self.n()
        &&& self.neighbor_lists@.len() == self.n()
        &&& forall|i: int| 0 <= i < self.n() ==> (#[trigger] self.statuses@[i]).id == i
        &&& forall|i: int| 0 <= i < self.n() ==> in_plane(#[trigger] self.positions@[i], params)
        &&& forall|i: int| 0 <= i < self.n() ==> (#[trigger] self.directions@[i]).is_unit()
    }

    /// The neighbor scratch of every agent is cleared, as it is between
    /// ticks.
    pub open spec fn scratch_clear(self) -> bool {
        forall|i: int|
            0 <= i < self.neighbor_lists@.len() ==> (#[trigger] self.neighbor_lists@[i]).is_clear()
    }

    /// Every aggregated neighbor direction on record is a unit vector.
    pub open spec fn neighbor_dirs_unit(self) -> bool {
        forall|i: int|
            0 <= i < self.neighbor_lists@.len()
                ==> match (#[trigger] self.neighbor_lists@[i]).neighbors_direction {
                Option::Some(v) => v.is_unit(),
                Option::None => true,
            }
    }

    /// Builds a population from explicit per-agent values; direction,
    /// infection and distancing flags are taken as given, travel flags
    /// start false and the neighbor scratch starts cleared.
    pub fn from_parts(
        positions: Vec<Position>,
        directions: Vec<Direction>,
        infected: Vec<bool>,
        dist_kept: Vec<bool>,
        params: &Params,
    ) -> (r: Population)
        requires
            params.valid(),
            directions@.len() == positions@.len(),
            infected@.len() == positions@.len(),
            dist_kept@.len() == positions@.len(),
            forall|i: int| 0 <= i < positions@.len() ==> in_plane(#[trigger] positions@[i], *params),
            forall|i: int| 0 <= i < positions@.len() ==> (#[trigger] directions@[i]).is_unit(),
        ensures
            r.wf(*params),
            r.scratch_clear(),
            r.n() == positions@.len(),
            r.positions == positions,
            r.directions == directions,
            forall|i: int|
                0 <= i < positions@.len() ==> (#[trigger] r.statuses@[i]) == (Status {
                    id: i as usize,
                    is_infected: infected@[i],
                    is_traveling: false,
                    is_dist_kept: dist_kept@[i],
                }),
    {
        let n = positions.len();
        let mut statuses: Vec<Status> = Vec::new();
        let mut neighbor_lists: Vec<NeighborList> = Vec::new();
        for i in 0..n
            invariant
                statuses@.len() == i,
                neighbor_lists@.len() == i,
                infected@.len() == n,
                dist_kept@.len() == n,
                forall|t: int|
                    0 <= t < i ==> (#[trigger] statuses@[t]) == (Status {
                        id: t as usize,
                        is_infected: infected@[t],
                        is_traveling: false,
                        is_dist_kept: dist_kept@[t],
                    }),
                forall|t: int| 0 <= t < i ==> (#[trigger] neighbor_lists@[t]).is_clear(),
        {
            statuses.push(
                Status {
                    id: i,
                    is_infected: infected[i],
                    is_traveling: false,
                    is_dist_kept: dist_kept[i],
                },
            );
            neighbor_lists.push(NeighborList::cleared());
        }
        Population { positions, directions, statuses, neighbor_lists }
    }

    /// Creates the initial population of n agents: positions uniform over
    /// the plane, direction seeded on the positive x axis (the first
    /// steering pass randomizes it), infection and distancing drawn
    /// against their configured probabilities.
    pub fn init(n: usize, params: &Params, rng: &mut SimRng) -> (r: Population)
        requires
            params.valid(),
        ensures
            r.wf(*params),
            r.scratch_clear(),
            r.n() == n,
            forall|i: int|
                0 <= i < n ==> (#[trigger] r.directions@[i]) == (Direction { x: FP_SCALE, y: 0 }),
            forall|i: int| 0 <= i < n ==> !(#[trigger] r.statuses@[i]).is_traveling,
            params.initial_chance_fp == FP_SCALE ==> forall|i: int|
                0 <= i < n ==> (#[trigger] r.statuses@[i]).is_infected,
            params.initial_chance_fp == 0 ==> forall|i: int|
                0 <= i < n ==> !(#[trigger] r.statuses@[i]).is_infected,
            params.dist_kept_portion_fp == FP_SCALE ==> forall|i: int|
                0 <= i < n ==> (#[trigger] r.statuses@[i]).is_dist_kept,
            params.dist_kept_portion_fp == 0 ==> forall|i: int|
                0 <= i < n ==> !(#[trigger] r.statuses@[i]).is_dist_kept,
    {
        let mut positions: Vec<Position> = Vec::new();
        let mut directions: Vec<Direction> = Vec::new();
        let mut infected: Vec<bool> = Vec::new();
        let mut dist_kept: Vec<bool> = Vec::new();
        for i in 0..n
            invariant
                params.valid(),
                positions@.len() == i,
                directions@.len() == i,
                infected@.len() == i,
                dist_kept@.len() == i,
                forall|t: int| 0 <= t < i ==> in_plane(#[trigger] positions@[t], *params),
                forall|t: int|
                    0 <= t < i ==> (#[trigger] directions@[t]) == (Direction {
                        x: FP_SCALE,
                        y: 0,
                    }),
                params.initial_chance_fp == FP_SCALE ==> forall|t: int|
                    0 <= t < i ==> #[trigger] infected@[t],
                params.initial_chance_fp == 0 ==> forall|t: int|
                    0 <= t < i ==> !(#[trigger] infected@[t]),
                params.dist_kept_portion_fp == FP_SCALE ==> forall|t: int|
                    0 <= t < i ==> #[trigger] dist_kept@[t],
                params.dist_kept_portion_fp == 0 ==> forall|t: int|
                    0 <= t < i ==> !(#[trigger] dist_kept@[t]),
        {
            let x = rng.gen_below(params.width_fp as u64) as i64;
            let y = rng.gen_below(params.height_fp as u64) as i64;
            positions.push(Position { x, y });
            let d = Direction { x: FP_SCALE, y: 0 };
            proof {
                lemma_axis_direction_unit(d);
            }
            directions.push(d);
            infected.push(chance_roll(rng, params.initial_chance_fp));
            dist_kept.push(chance_roll(rng, params.dist_kept_portion_fp));
        }
        proof {
            assert forall|t: int| 0 <= t < directions@.len() implies (#[trigger] directions@[t]).is_unit() by {
                lemma_axis_direction_unit(directions@[t]);
            }
        }
        Population::from_parts(positions, directions, infected, dist_kept, params)
    }
}

impl Population {
    /// One full simulation tick under the given delta time (seconds, fixed
    /// point; malformed values are clamped into [0, 1/30]): the neighbor
    /// scan, steering, infection roll and motion phases run in order.
    /// After the tick every position is back in the plane, every direction
    /// is a unit vector, infection has only spread, only to exposed
    /// distancing agents, and the neighbor scratch is cleared again.
    pub fn tick(&mut self, rng: &mut SimRng, dt_fp: i64, params: &Params)
        requires
            old(self).wf(*params),
            params.valid(),
            old(self).scratch_clear(),
        ensures
            final(self).wf(*params),
            final(self).scratch_clear(),
            final(self).n() == old(self).n(),
            forall|i: int|
                0 <= i < old(self).n() ==> {
                    &&& (#[trigger] final(self).statuses@[i]).id == old(self).statuses@[i].id
                    &&& final(self).statuses@[i].is_dist_kept == old(
                    self).statuses@[i].is_dist_kept
                    &&& final(self).statuses@[i].is_traveling == old(
                    self).statuses@[i].is_traveling
                    &&& (old(self).statuses@[i].is_infected ==> final(
                    self).statuses@[i].is_infected)
                    &&& (final(self).statuses@[i].is_infected ==> old(
                    self).statuses@[i].is_infected || (old(self).statuses@[i].is_dist_kept
                        && exposed(
                        old(self).positions@,
                        old(self).statuses@,
                        i,
                        params.infection_radius_fp,
                    )))
                    &&& (params.infection_chance_fp == FP_SCALE && old(
                    self).statuses@[i].is_dist_kept && exposed(
                        old(self).positions@,
                        old(self).statuses@,
                        i,
                        params.infection_radius_fp,
                    ) ==> final(self).statuses@[i].is_infected)
                    &&& (params.infection_chance_fp == 0 ==> final(
                    self).statuses@[i].is_infected == old(self).statuses@[i].is_infected)
                },
    {
        let dt: i64 = if dt_fp < 0 {
            0
        } else if dt_fp > DT_MAX_FP {
            DT_MAX_FP
        } else {
            dt_fp
        };
        let ghost s0 = *self;
        self.neighbor_scan(params);
        let ghost s1 = *self;
        proof {
            assert forall|i: int|
                0 <= i < self.neighbor_lists@.len() implies match (#[trigger] self.neighbor_lists@[i]).neighbors_direction {
                Option::Some(v) => v.is_unit(),
                Option::None => true,
            } by {
                if !s0.statuses@[i].is_dist_kept {
                    assert(self.neighbor_lists@[i] == s0.neighbor_lists@[i]);
                    assert(s0.neighbor_lists@[i].is_clear());
                }
            }
            assert(self.neighbor_dirs_unit());
        }
        self.steering(rng, params);
        let ghost s2 = *self;
        self.infection(rng, params);
        let ghost s3 = *self;
        self.motion(dt, params);
        proof {
            assert(final(self).scratch_clear()) by {
                assert(final(self).neighbor_lists@ == s3.neighbor_lists@);
                assert forall|i: int|
                    0 <= i < final(self).neighbor_lists@.len() implies (#[trigger] final(
                    self).neighbor_lists@[i]).is_clear() by {
                    assert(final(self).neighbor_lists@[i] == s3.neighbor_lists@[i]);
                }
            }
            assert forall|i: int| 0 <= i < s0.n() implies {
                &&& (#[trigger] final(self).statuses@[i]).id == s0.statuses@[i].id
                &&& final(self).statuses@[i].is_dist_kept == s0.statuses@[i].is_dist_kept
                &&& final(self).statuses@[i].is_traveling == s0.statuses@[i].is_traveling
                &&& (s0.statuses@[i].is_infected ==> final(self).statuses@[i].is_infected)
                &&& (final(self).statuses@[i].is_infected ==> s0.statuses@[i].is_infected || (
                s0.statuses@[i].is_dist_kept && exposed(
                    s0.positions@,
                    s0.statuses@,
                    i,
                    params.infection_radius_fp,
                )))
                &&& (params.infection_chance_fp == FP_SCALE && s0.statuses@[i].is_dist_kept
                    && exposed(s0.positions@, s0.statuses@, i, params.infection_radius_fp)
                    ==> final(self).statuses@[i].is_infected)
                &&& (params.infection_chance_fp == 0 ==> final(self).statuses@[i].is_infected
                    == s0.statuses@[i].is_infected)
            } by {
                assert(s1.statuses@[i] == s0.statuses@[i]);
                assert(s2.statuses@[i] == s0.statuses@[i]);
                assert(crate::systems::infection_step_ok(
                    s2.statuses@[i],
                    s3.statuses@[i],
                    s2.neighbor_lists@[i].any_neighbor_infected,
                    params.infection_chance_fp,
                ));
                assert(final(self).statuses@[i] == s3.statuses@[i]);
                assert(s2.neighbor_lists@[i] == s1.neighbor_lists@[i]);
                if s0.statuses@[i].is_dist_kept {
                    assert(s1.neighbor_lists@[i].any_neighbor_infected == (
                    s0.neighbor_lists@[i].any_neighbor_infected || exposed(
                        s0.positions@,
                        s0.statuses@,
                        i,
                        params.infection_radius_fp,
                    )));
                    assert(!s0.neighbor_lists@[i].any_neighbor_infected);
                } else {
                    assert(s1.neighbor_lists@[i] == s0.neighbor_lists@[i]);
                    assert(!s1.neighbor_lists@[i].any_neighbor_infected);
                }
            }
        }
    }
}

/// Draws a uniform sample and tests it against a probability given in
/// fixed point. Certain and impossible events are decided for every
/// sample the generator can hand back.
pub fn chance_roll(rng: &mut SimRng, chance_fp: i64) -> (b: bool)
    requires
        0 <= chance_fp <= FP_SCALE,
    ensures
        chance_fp == FP_SCALE ==> b,
        chance_fp == 0 ==> !b,
{
    let u = rng.gen_below(FP_SCALE as u64);
    crate::systems::infection_roll(u, chance_fp)
}

} // verus!
