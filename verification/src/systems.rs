//! The four phases of a simulation tick, in their fixed order: neighbor
//! scan, steering, infection roll, motion with toroidal wrap.
//!
//! Each phase is an in-place pass over the population arrays in ascending
//! agent order, with an exact contract; where a phase consumes randomness
//! the contract states what holds for every value the generator can hand
//! back.

use vstd::prelude::*;
use vstd::arithmetic::div_mod::lemma_div_is_ordered;
use crate::components::{Direction, NeighborList, Position, Status};
use crate::game::{in_plane, Population};
use crate::rng::SimRng;
use crate::settings::{Params, DT_MAX_FP, FP_SCALE};
use crate::util::{
    abs_i, dir_norm_sq, mul_fp, mul_fp_s, normalize_spec, tdiv, vector_normalize,
    NORMALIZE_MAX_SQ, NORMALIZE_MIN_SQ,
};

verus! {

/// Squared Euclidean distance between two points, exact.
pub open spec fn dist_sq(a: Position, b: Position) -> int {
    (b.x - a.x) * (b.x - a.x) + (b.y - a.y) * (b.y - a.y)
}

/// Radius within which neighbors influence steering: one and a half
/// transmission radii, rounded down to the grid.
pub open spec fn detection_radius(radius_fp: i64) -> int {
    (3 * radius_fp) / 2
}

/// b sits within steering detection range of a.
pub open spec fn in_detection_range(a: Position, b: Position, radius_fp: i64) -> bool {
    dist_sq(a, b) < detection_radius(radius_fp) * detection_radius(radius_fp)
}

/// b sits within transmission range of a.
pub open spec fn in_transmission_range(a: Position, b: Position, radius_fp: i64) -> bool {
    dist_sq(a, b) < (radius_fp as int) * (radius_fp as int)
}

/// Some other agent is infected and sits within transmission range of
/// agent i.
pub open spec fn exposed(
    positions: Seq<Position>,
    statuses: Seq<Status>,
    i: int,
    radius_fp: i64,
) -> bool {
    exists|j: int|
        0 <= j < positions.len() && j != i && (#[trigger] statuses[j]).is_infected
            && in_transmission_range(positions[i], positions[j], radius_fp)
}

/// One accumulation step of the neighbor scan: add the neighbor's
/// direction and renormalize. When the sum is too short for the grid the
/// accumulator restarts from the neighbor's own direction; the original
/// accumulation renormalizes after every neighbor by design, weighting
/// later neighbors more.
pub open spec fn scan_step(acc: Direction, dj: Direction) -> Direction {
    let s = Direction { x: (acc.x + dj.x) as i64, y: (acc.y + dj.y) as i64 };
    if s.norm_sq() >= NORMALIZE_MIN_SQ {
        normalize_spec(s)
    } else {
        normalize_spec(dj)
    }
}

/// The neighbor-scan fold for agent i over candidate neighbors 0..k:
/// the accumulated direction and whether any neighbor was in detection
/// range.
pub open spec fn scan_upto(
    positions: Seq<Position>,
    directions: Seq<Direction>,
    i: int,
    k: int,
    radius_fp: i64,
) -> (Direction, bool)
    decreases k,
{
    if k <= 0 {
        (Direction { x: 0, y: 0 }, false)
    } else {
        let prev = scan_upto(positions, directions, i, k - 1, radius_fp);
        if k - 1 != i && in_detection_range(positions[i], positions[k - 1], radius_fp) {
            (scan_step(prev.0, directions[k - 1]), true)
        } else {
            prev
        }
    }
}

/// What the neighbor scan records for agent i: the aggregated direction
/// over all other agents in detection range, or None when there were
/// none.
pub open spec fn scan_neighbor_dir(
    positions: Seq<Position>,
    directions: Seq<Direction>,
    i: int,
    radius_fp: i64,
) -> Option<Direction> {
    let r = scan_upto(positions, directions, i, positions.len() as int, radius_fp);
    if r.1 {
        Option::Some(r.0)
    } else {
        Option::None
    }
}

/// How one agent's status may change in the infection phase: identity
/// and behavior flags are kept, infection only ever appears, appears only
/// under an exposure flag, surely under probability one and never under
/// probability zero.
pub open spec fn infection_step_ok(os: Status, ns: Status, flag: bool, chance_fp: i64) -> bool {
    &&& ns.id == os.id
    &&& ns.is_dist_kept == os.is_dist_kept
    &&& ns.is_traveling == os.is_traveling
    &&& (os.is_infected ==> ns.is_infected)
    &&& (ns.is_infected ==> os.is_infected || flag)
    &&& (!flag ==> ns == os)
    &&& (chance_fp == FP_SCALE && flag ==> ns.is_infected)
    &&& (chance_fp == 0 ==> ns.is_infected == os.is_infected)
}

/// A uniform sample converts a susceptible exposed agent exactly when it
/// falls below the transmission probability.
pub open spec fn spec_infection_roll(u: int, chance_fp: int) -> bool {
    u < chance_fp
}

/// Decides one transmission trial from a uniform sample.
pub fn infection_roll(u: u64, chance_fp: i64) -> (b: bool)
    requires
        u < FP_SCALE as u64,
        0 <= chance_fp <= FP_SCALE,
    ensures
        b == spec_infection_roll(u as int, chance_fp as int),
{
    chance_fp > 0 && u < chance_fp as u64
}

/// Raising the transmission probability never turns a converting sample
/// into a non-converting one: infection is monotone in the probability,
/// sample for sample.
pub proof fn lemma_infection_roll_monotone(u: int, chance_lo: int, chance_hi: int)
    requires
        chance_lo <= chance_hi,
    ensures
        spec_infection_roll(u, chance_lo) ==> spec_infection_roll(u, chance_hi),
{
}

/// Squared distance between two points of the plane, exact.
fn pos_dist_sq(a: &Position, b: &Position) -> (r: i64)
    requires
        0 <= a.x <= 2_000_000_000,
        0 <= a.y <= 2_000_000_000,
        0 <= b.x <= 2_000_000_000,
        0 <= b.y <= 2_000_000_000,
    ensures
        r == dist_sq(*a, *b),
        r >= 0,
{
    let dx = b.x - a.x;
    let dy = b.y - a.y;
    proof {
        assert(dx * dx <= 4_000_000_000_000_000_000 && dx * dx >= 0)
            by (nonlinear_arith)
            requires
                -2_000_000_000 <= dx <= 2_000_000_000,
        ;
        assert(dy * dy <= 4_000_000_000_000_000_000 && dy * dy >= 0)
            by (nonlinear_arith)
            requires
                -2_000_000_000 <= dy <= 2_000_000_000,
        ;
    }
    dx * dx + dy * dy
}

impl Population {
    /// Phase 1, the neighbor scan. For every distancing agent, scans all
    /// other agents: those within detection range feed the aggregated
    /// neighbor direction, and an infected one within transmission range
    /// raises the exposure flag. Agents that do not practice distancing
    /// keep their scratch untouched.
    pub fn neighbor_scan(&mut self, params: &Params)
        requires
            old(self).wf(*params),
            params.valid(),
        ensures
            final(self).wf(*params),
            final(self).positions == old(self).positions,
            final(self).directions == old(self).directions,
            final(self).statuses == old(self).statuses,
            final(self).neighbor_lists@.len() == old(self).neighbor_lists@.len(),
            forall|i: int|
                0 <= i < old(self).n() && !(#[trigger] old(self).statuses@[i]).is_dist_kept
                    ==> final(self).neighbor_lists@[i] == old(self).neighbor_lists@[i],
            forall|i: int|
                0 <= i < old(self).n() && (#[trigger] old(self).statuses@[i]).is_dist_kept ==> {
                    &&& final(self).neighbor_lists@[i].neighbors_direction == scan_neighbor_dir(
                        old(self).positions@,
                        old(self).directions@,
                        i,
                        params.infection_radius_fp,
                    )
                    &&& final(self).neighbor_lists@[i].any_neighbor_infected == (old(
                    self).neighbor_lists@[i].any_neighbor_infected || exposed(
                        old(self).positions@,
                        old(self).statuses@,
                        i,
                        params.infection_radius_fp,
                    ))
                },
            forall|i: int|
                0 <= i < old(self).n() && (#[trigger] old(self).statuses@[i]).is_dist_kept
                    ==> match final(self).neighbor_lists@[i].neighbors_direction {
                    Option::Some(v) => v.is_unit(),
                    Option::None => true,
                },
    {
        let n = self.positions.len();
        let ghost orig = *self;
        let radius = params.infection_radius_fp;
        let det = ((3 * (radius as u64)) / 2) as i64;
        proof {
            assert(det == detection_radius(radius));
            assert(det * det <= 9_000_000_000_000_000_000 && det * det >= 0) by (nonlinear_arith)
                requires
                    0 <= det <= 3_000_000_000,
            ;
            assert(radius * radius <= 9_000_000_000_000_000_000 && radius * radius >= 0)
                by (nonlinear_arith)
                requires
                    0 <= radius <= 3_000_000_000,
            ;
        }
        let det_sq = det * det;
        let rad_sq = radius * radius;
        for i in 0..n
            invariant
                self.wf(*params),
                params.valid(),
                radius == params.infection_radius_fp,
                det_sq == detection_radius(radius) * detection_radius(radius),
                rad_sq == (radius as int) * (radius as int),
                n == orig.n(),
                self.positions == orig.positions,
                self.directions == orig.directions,
                self.statuses == orig.statuses,
                self.neighbor_lists@.len() == orig.neighbor_lists@.len(),
                forall|t: int| i <= t < n ==> self.neighbor_lists@[t] == orig.neighbor_lists@[t],
                forall|t: int|
                    0 <= t < i && !(#[trigger] orig.statuses@[t]).is_dist_kept
                        ==> self.neighbor_lists@[t] == orig.neighbor_lists@[t],
                forall|t: int|
                    0 <= t < i && (#[trigger] orig.statuses@[t]).is_dist_kept ==> {
                        &&& self.neighbor_lists@[t].neighbors_direction == scan_neighbor_dir(
                            orig.positions@,
                            orig.directions@,
                            t,
                            radius,
                        )
                        &&& self.neighbor_lists@[t].any_neighbor_infected == (
                        orig.neighbor_lists@[t].any_neighbor_infected || exposed(
                            orig.positions@,
                            orig.statuses@,
                            t,
                            radius,
                        ))
                    },
                forall|t: int|
                    0 <= t < i && (#[trigger] orig.statuses@[t]).is_dist_kept
                        ==> match self.neighbor_lists@[t].neighbors_direction {
                        Option::Some(v) => v.is_unit(),
                        Option::None => true,
                    },
        {
            if self.statuses[i].is_dist_kept {
                let mut acc = Direction { x: 0, y: 0 };
                let mut found = false;
                let mut flag = self.neighbor_lists[i].any_neighbor_infected;
                for j in 0..n
                    invariant
                        self.wf(*params),
                        params.valid(),
                        radius == params.infection_radius_fp,
                        det_sq == detection_radius(radius) * detection_radius(radius),
                        rad_sq == (radius as int) * (radius as int),
                        n == self.n(),
                        i < n,
                        self.positions == orig.positions,
                        self.directions == orig.directions,
                        self.statuses == orig.statuses,
                        (acc, found) == scan_upto(
                            orig.positions@,
                            orig.directions@,
                            i as int,
                            j as int,
                            radius,
                        ),
                        found ==> acc.is_unit(),
                        !found ==> acc == (Direction { x: 0, y: 0 }),
                        flag == (self.neighbor_lists@[i as int].any_neighbor_infected || exists|t: int|
                            0 <= t < j && t != i && (#[trigger] orig.statuses@[t]).is_infected
                                && in_transmission_range(
                                orig.positions@[i as int],
                                orig.positions@[t],
                                radius,
                            )),
                {
                    if j != i {
                        let d2 = pos_dist_sq(&self.positions[i], &self.positions[j]);
                        if d2 < det_sq {
                            let dj = self.directions[j];
                            proof {
                                crate::util::lemma_unit_component_bound(dj);
                                if found {
                                    crate::util::lemma_unit_component_bound(acc);
                                }
                            }
                            let s = Direction { x: acc.x + dj.x, y: acc.y + dj.y };
                            proof {
                                crate::util::lemma_sum_norm_in_range(s);
                            }
                            let ns = dir_norm_sq(&s);
                            if ns >= NORMALIZE_MIN_SQ {
                                acc = vector_normalize(&s);
                            } else {
                                proof {
                                    crate::util::lemma_unit_norm_in_range(dj);
                                }
                                acc = vector_normalize(&dj);
                            }
                            found = true;
                        }
                        if d2 < rad_sq && self.statuses[j].is_infected {
                            flag = true;
                        }
                    }
                }
                let nd = if found {
                    Option::Some(acc)
                } else {
                    Option::None
                };
                self.neighbor_lists[i] = NeighborList {
                    neighbors_direction: nd,
                    any_neighbor_infected: flag,
                };
            }
        }
    }

    /// Phase 2, steering. An agent with an aggregated neighbor direction
    /// steers away from it; one without takes a random-walk step: its
    /// direction plus a random unit jitter, renormalized. Whenever the
    /// vector to normalize is too short for the grid, a fresh random unit
    /// direction is taken instead, so a unit direction always comes out.
    pub fn steering(&mut self, rng: &mut SimRng, params: &Params)
        requires
            old(self).wf(*params),
            params.valid(),
            old(self).neighbor_dirs_unit(),
        ensures
            final(self).wf(*params),
            final(self).positions == old(self).positions,
            final(self).statuses == old(self).statuses,
            final(self).neighbor_lists == old(self).neighbor_lists,
            final(self).directions@.len() == old(self).directions@.len(),
            forall|i: int|
                0 <= i < old(self).n() ==> (#[trigger] final(self).directions@[i]).is_unit(),
            forall|i: int|
                0 <= i < old(self).n()
                    ==> match (#[trigger] old(self).neighbor_lists@[i]).neighbors_direction {
                    Option::Some(v) => {
                        let d = dir_diff(old(self).directions@[i], v);
                        d.norm_sq() >= NORMALIZE_MIN_SQ ==> final(self).directions@[i]
                            == normalize_spec(d)
                    },
                    Option::None => true,
                },
    {
        let n = self.positions.len();
        let ghost orig = *self;
        for i in 0..n
            invariant
                self.wf(*params),
                params.valid(),
                n == orig.n(),
                self.positions == orig.positions,
                self.statuses == orig.statuses,
                self.neighbor_lists == orig.neighbor_lists,
                self.directions@.len() == orig.directions@.len(),
                orig.neighbor_dirs_unit(),
                forall|t: int| i <= t < n ==> self.directions@[t] == orig.directions@[t],
                forall|t: int|
                    0 <= t < i ==> (#[trigger] self.directions@[t]).is_unit(),
                forall|t: int|
                    0 <= t < i ==> match (#[trigger] orig.neighbor_lists@[t]).neighbors_direction {
                        Option::Some(v) => {
                            let d = dir_diff(orig.directions@[t], v);
                            d.norm_sq() >= NORMALIZE_MIN_SQ ==> self.directions@[t]
                                == normalize_spec(d)
                        },
                        Option::None => true,
                    },
        {
            let dir = self.directions[i];
            let nd = self.neighbor_lists[i].neighbors_direction;
            let newdir: Direction;
            match nd {
                Option::Some(v) => {
                    proof {
                        crate::util::lemma_unit_component_bound(dir);
                        crate::util::lemma_unit_component_bound(v);
                    }
                    let d = Direction { x: dir.x - v.x, y: dir.y - v.y };
                    proof {
                        crate::util::lemma_sum_norm_in_range(d);
                    }
                    let ns = dir_norm_sq(&d);
                    if ns >= NORMALIZE_MIN_SQ {
                        newdir = vector_normalize(&d);
                    } else {
                        newdir = rng.gen_unit_direction();
                    }
                },
                Option::None => {
                    let jit = rng.gen_unit_direction();
                    proof {
                        crate::util::lemma_unit_component_bound(dir);
                        crate::util::lemma_unit_component_bound(jit);
                    }
                    let s = Direction { x: dir.x + jit.x, y: dir.y + jit.y };
                    proof {
                        crate::util::lemma_sum_norm_in_range(s);
                    }
                    let ns = dir_norm_sq(&s);
                    if ns >= NORMALIZE_MIN_SQ {
                        newdir = vector_normalize(&s);
                    } else {
                        newdir = jit;
                    }
                },
            }
            self.directions[i] = newdir;
        }
    }

    /// Phase 3, the infection roll. Every susceptible agent whose exposure
    /// flag is up rolls one uniform sample against the transmission
    /// probability; the neighbor scratch of every agent is then cleared,
    /// whatever the outcome, readying the next tick.
    pub fn infection(&mut self, rng: &mut SimRng, params: &Params)
        requires
            old(self).wf(*params),
            params.valid(),
        ensures
            final(self).wf(*params),
            final(self).positions == old(self).positions,
            final(self).directions == old(self).directions,
            final(self).statuses@.len() == old(self).statuses@.len(),
            final(self).neighbor_lists@.len() == old(self).neighbor_lists@.len(),
            final(self).scratch_clear(),
            forall|i: int|
                0 <= i < old(self).n() ==> infection_step_ok(
                    #[trigger] old(self).statuses@[i],
                    final(self).statuses@[i],
                    old(self).neighbor_lists@[i].any_neighbor_infected,
                    params.infection_chance_fp,
                ),
    {
        let n = self.positions.len();
        let ghost orig = *self;
        let chance = params.infection_chance_fp;
        for i in 0..n
            invariant
                self.wf(*params),
                params.valid(),
                chance == params.infection_chance_fp,
                n == orig.n(),
                self.positions == orig.positions,
                self.directions == orig.directions,
                self.statuses@.len() == orig.statuses@.len(),
                self.neighbor_lists@.len() == orig.neighbor_lists@.len(),
                forall|t: int| i <= t < n ==> self.statuses@[t] == orig.statuses@[t],
                forall|t: int| i <= t < n ==> self.neighbor_lists@[t] == orig.neighbor_lists@[t],
                forall|t: int|
                    0 <= t < i ==> (#[trigger] self.neighbor_lists@[t]).is_clear(),
                forall|t: int|
                    0 <= t < i ==> infection_step_ok(
                        #[trigger] orig.statuses@[t],
                        self.statuses@[t],
                        orig.neighbor_lists@[t].any_neighbor_infected,
                        chance,
                    ),
        {
            let st = self.statuses[i];
            if self.neighbor_lists[i].any_neighbor_infected && !st.is_infected {
                let u = rng.gen_below(FP_SCALE as u64);
                if infection_roll(u, chance) {
                    self.statuses[i] = Status {
                        id: st.id,
                        is_infected: true,
                        is_traveling: st.is_traveling,
                        is_dist_kept: st.is_dist_kept,
                    };
                }
            }
            self.neighbor_lists[i] = NeighborList::cleared();
        }
    }

    /// Phase 4, motion with the toroidal boundary. Every non-traveling
    /// agent advances along its direction by the frame-rate-normalized
    /// speed, scaled down for distancing agents, and is wrapped back into
    /// the plane, one adjustment per axis.
    pub fn motion(&mut self, dt_fp: i64, params: &Params)
        requires
            old(self).wf(*params),
            params.valid(),
            0 <= dt_fp <= DT_MAX_FP,
        ensures
            final(self).wf(*params),
            final(self).directions == old(self).directions,
            final(self).statuses == old(self).statuses,
            final(self).neighbor_lists == old(self).neighbor_lists,
            final(self).positions@.len() == old(self).positions@.len(),
            forall|i: int|
                0 <= i < old(self).n() ==> (#[trigger] final(self).positions@[i])
                    == motion_position(
                    old(self).positions@[i],
                    old(self).directions@[i],
                    old(self).statuses@[i],
                    dt_fp,
                    *params,
                ),
    {
        let n = self.positions.len();
        let ghost orig = *self;
        let speed60 = 60 * params.entity_max_speed_fp;
        proof {
            crate::util::lemma_mul_le(
                abs_i(dt_fp as int),
                abs_i(speed60 as int),
                33_333,
                600_000_000,
            );
            crate::util::lemma_mul_le(dt_fp as int, speed60 as int, 33_333, 600_000_000);
        }
        let m_free = mul_fp(dt_fp, speed60);
        proof {
            lemma_div_is_ordered(
                abs_i((dt_fp as int) * (speed60 as int)),
                19_999_800_000_000,
                1_000_000,
            );
            assert(abs_i(m_free as int) <= 19_999_800);
            crate::util::lemma_mul_le(
                abs_i(m_free as int),
                abs_i(params.walk_speed_factor_fp as int),
                19_999_800,
                1_000_000,
            );
            crate::util::lemma_mul_le(
                m_free as int,
                params.walk_speed_factor_fp as int,
                19_999_800,
                1_000_000,
            );
        }
        let m_dist = mul_fp(m_free, params.walk_speed_factor_fp);
        proof {
            lemma_div_is_ordered(
                abs_i((m_free as int) * (params.walk_speed_factor_fp as int)),
                19_999_800_000_000,
                1_000_000,
            );
            assert(abs_i(m_dist as int) <= 19_999_800);
        }
        for i in 0..n
            invariant
                self.wf(*params),
                params.valid(),
                0 <= dt_fp <= DT_MAX_FP,
                n == orig.n(),
                self.directions == orig.directions,
                self.statuses == orig.statuses,
                self.neighbor_lists == orig.neighbor_lists,
                self.positions@.len() == orig.positions@.len(),
                abs_i(m_free as int) <= 19_999_800,
                abs_i(m_dist as int) <= 19_999_800,
                speed60 == 60 * (params.entity_max_speed_fp as int),
                m_free == mul_fp_s(dt_fp as int, 60 * (params.entity_max_speed_fp as int)),
                m_dist == mul_fp_s(m_free as int, params.walk_speed_factor_fp as int),
                forall|t: int| i <= t < n ==> self.positions@[t] == orig.positions@[t],
                forall|t: int|
                    0 <= t < i ==> (#[trigger] self.positions@[t]) == motion_position(
                        orig.positions@[t],
                        orig.directions@[t],
                        orig.statuses@[t],
                        dt_fp,
                        *params,
                    ),
        {
            let st = self.statuses[i];
            if !st.is_traveling {
                let m = if st.is_dist_kept {
                    m_dist
                } else {
                    m_free
                };
                let dir = self.directions[i];
                proof {
                    crate::util::lemma_unit_component_bound(dir);
                    crate::util::lemma_mul_le(
                        abs_i(dir.x as int),
                        abs_i(m as int),
                        1_000_025,
                        19_999_800,
                    );
                    crate::util::lemma_mul_le(
                        abs_i(dir.y as int),
                        abs_i(m as int),
                        1_000_025,
                        19_999_800,
                    );
                    crate::util::lemma_mul_le(dir.x as int, m as int, 1_000_025, 19_999_800);
                    crate::util::lemma_mul_le(dir.y as int, m as int, 1_000_025, 19_999_800);
                }
                let sx = mul_fp(dir.x, m);
                let sy = mul_fp(dir.y, m);
                proof {
                    lemma_div_is_ordered(
                        abs_i((dir.x as int) * (m as int)),
                        20_000_299_995_000,
                        1_000_000,
                    );
                    lemma_div_is_ordered(
                        abs_i((dir.y as int) * (m as int)),
                        20_000_299_995_000,
                        1_000_000,
                    );
                    assert(abs_i(sx as int) <= 20_000_299 && abs_i(sy as int) <= 20_000_299);
                }
                let pos = self.positions[i];
                let moved = Position { x: pos.x + sx, y: pos.y + sy };
                let wrapped = check_bound(moved, params);
                self.positions[i] = wrapped;
            }
        }
    }
}

/// One coordinate after the toroidal wrap: a single adjustment by the
/// plane size per axis.
pub open spec fn wrap_coord(x: int, w: int) -> int {
    if x < 0 {
        x + w
    } else if x >= w {
        x - w
    } else {
        x
    }
}

/// The speed, in plane units per tick, of an agent this tick: delta time
/// times the 60 Hz reference rate times the base speed, scaled down for a
/// distancing agent.
pub open spec fn tick_speed(st: Status, dt_fp: i64, params: Params) -> int {
    let m0 = mul_fp_s(dt_fp as int, 60 * (params.entity_max_speed_fp as int));
    if st.is_dist_kept {
        mul_fp_s(m0, params.walk_speed_factor_fp as int)
    } else {
        m0
    }
}

/// Where the motion phase puts an agent: one step along its direction at
/// its tick speed, wrapped back into the plane; traveling agents hold
/// their position.
pub open spec fn motion_position(
    p: Position,
    d: Direction,
    st: Status,
    dt_fp: i64,
    params: Params,
) -> Position {
    if st.is_traveling {
        p
    } else {
        let m = tick_speed(st, dt_fp, params);
        Position {
            x: wrap_coord(p.x + mul_fp_s(d.x as int, m), params.width_fp as int) as i64,
            y: wrap_coord(p.y + mul_fp_s(d.y as int, m), params.height_fp as int) as i64,
        }
    }
}

/// The avoidance input to steering: the agent's direction minus the
/// aggregated neighbor direction.
pub open spec fn dir_diff(a: Direction, b: Direction) -> Direction {
    Direction { x: (a.x - b.x) as i64, y: (a.y - b.y) as i64 }
}

/// Wraps a position back into the plane, one adjustment per axis; enough
/// whenever the overshoot is below the plane size.
pub fn check_bound(pos: Position, params: &Params) -> (r: Position)
    requires
        params.valid(),
        -(params.width_fp as int) < pos.x < 2 * (params.width_fp as int),
        -(params.height_fp as int) < pos.y < 2 * (params.height_fp as int),
    ensures
        r.x == wrap_coord(pos.x as int, params.width_fp as int),
        r.y == wrap_coord(pos.y as int, params.height_fp as int),
        in_plane(r, *params),
{
    let x = if pos.x < 0 {
        pos.x + params.width_fp
    } else if pos.x >= params.width_fp {
        pos.x - params.width_fp
    } else {
        pos.x
    };
    let y = if pos.y < 0 {
        pos.y + params.height_fp
    } else if pos.y >= params.height_fp {
        pos.y - params.height_fp
    } else {
        pos.y
    };
    Position { x, y }
}

} // verus!
