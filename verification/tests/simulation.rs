//! End-to-end scenarios of the tick pipeline.

use covid_sim::components::{Direction, Position};
use covid_sim::game::Population;
use covid_sim::rng::SimRng;
use covid_sim::settings::{Params, FP_SCALE};
use covid_sim::systems::infection_roll;

const PX: i64 = FP_SCALE;

fn pos(x_px: i64, y_px: i64) -> Position {
    Position { x: x_px * PX, y: y_px * PX }
}

fn east() -> Direction {
    Direction { x: FP_SCALE, y: 0 }
}

fn make_population(
    agents: &[(Position, bool, bool)],
    params: &Params,
) -> Population {
    let positions: Vec<Position> = agents.iter().map(|a| a.0).collect();
    let directions: Vec<Direction> = agents.iter().map(|_| east()).collect();
    let infected: Vec<bool> = agents.iter().map(|a| a.1).collect();
    let dist_kept: Vec<bool> = agents.iter().map(|a| a.2).collect();
    Population::from_parts(positions, directions, infected, dist_kept, params)
}

fn assert_in_plane(pop: &Population, params: &Params) {
    for p in pop.positions.iter() {
        assert!(0 <= p.x && p.x < params.width_fp);
        assert!(0 <= p.y && p.y < params.height_fp);
    }
}

fn assert_directions_unit(pop: &Population) {
    for d in pop.directions.iter() {
        let nx = d.x as f64 / 1_000_000.0;
        let ny = d.y as f64 / 1_000_000.0;
        let norm = (nx * nx + ny * ny).sqrt();
        assert!((norm - 1.0).abs() <= 1.0e-4, "direction norm {} off unit", norm);
    }
}

fn assert_scratch_clear(pop: &Population) {
    for nl in pop.neighbor_lists.iter() {
        assert!(nl.neighbors_direction.is_none());
        assert!(!nl.any_neighbor_infected);
    }
}

#[test]
fn isolated_agent_stays_healthy() {
    // One distancing agent alone: no exposure, no infection, position
    // stays inside the plane across 100 ticks at dt = 1/60 s.
    let params = Params::standard();
    let mut pop = make_population(&[(pos(100, 100), false, true)], &params);
    let mut rng = SimRng::seeded(1);
    for _ in 0..100 {
        pop.tick(&mut rng, 16_667, &params);
        assert!(!pop.statuses[0].is_infected);
        assert!(!pop.neighbor_lists[0].any_neighbor_infected);
        assert!(pop.neighbor_lists[0].neighbors_direction.is_none());
        assert_in_plane(&pop, &params);
        assert_directions_unit(&pop);
    }
}

#[test]
fn guaranteed_transmission() {
    // Two agents ten pixels apart, one infected, transmission probability
    // one: after a single tick both are infected.
    let mut params = Params::standard();
    params.infection_chance_fp = FP_SCALE;
    let mut pop = make_population(
        &[(pos(640, 360), true, false), (pos(650, 360), false, true)],
        &params,
    );
    let mut rng = SimRng::seeded(2);
    pop.tick(&mut rng, 16_667, &params);
    assert!(pop.statuses[0].is_infected);
    assert!(pop.statuses[1].is_infected);
}

#[test]
fn no_transmission_beyond_radius() {
    // Two agents one pixel beyond the transmission radius: the exposure
    // flag never rises and the susceptible agent stays susceptible even
    // at transmission probability one.
    let mut params = Params::standard();
    params.infection_chance_fp = FP_SCALE;
    let agents = [(pos(100, 100), true, true), (pos(100, 121), false, true)];
    let mut scan_only = make_population(&agents, &params);
    scan_only.neighbor_scan(&params);
    assert!(!scan_only.neighbor_lists[1].any_neighbor_infected);
    // Within detection range, so steering still sees the neighbor.
    assert!(scan_only.neighbor_lists[1].neighbors_direction.is_some());

    let mut pop = make_population(&agents, &params);
    let mut rng = SimRng::seeded(3);
    pop.tick(&mut rng, 16_667, &params);
    assert!(!pop.statuses[1].is_infected);
}

#[test]
fn no_transmission_at_probability_zero() {
    let mut params = Params::standard();
    params.infection_chance_fp = 0;
    let mut pop = make_population(
        &[(pos(640, 360), true, false), (pos(650, 360), false, true)],
        &params,
    );
    let mut rng = SimRng::seeded(4);
    for _ in 0..50 {
        pop.tick(&mut rng, 16_667, &params);
    }
    assert!(!pop.statuses[1].is_infected);
}

#[test]
fn toroidal_wrap() {
    // An agent one pixel from the right edge moving east at dt = 1/30 s
    // advances 4 pixels (within the grid) and wraps to x close to 3.
    let params = Params::standard();
    let mut pop = make_population(&[(pos(1279, 360), false, false)], &params);
    pop.motion(33_333, &params);
    assert_eq!(pop.positions[0].x, 2_999_960);
    assert_eq!(pop.positions[0].y, 360 * PX);
    let x_px = pop.positions[0].x as f64 / 1_000_000.0;
    assert!((x_px - 3.0).abs() < 0.01);
    assert_in_plane(&pop, &params);
}

#[test]
fn distancing_reduces_speed() {
    // Two far-apart agents moving east, identical but for distancing:
    // their displacements differ exactly by the distancing speed factor.
    let params = Params::standard();
    let mut pop = make_population(
        &[(pos(100, 100), false, false), (pos(1000, 600), false, true)],
        &params,
    );
    pop.motion(16_667, &params);
    let free_disp = pop.positions[0].x - 100 * PX;
    let dist_disp = pop.positions[1].x - 1000 * PX;
    assert_eq!(free_disp, 2_000_040);
    assert_eq!(dist_disp, 400_008);
    let ratio = dist_disp as f64 / free_disp as f64;
    assert!((ratio - 0.2).abs() <= 1.0e-4);
}

#[test]
fn non_distancing_agent_ignores_neighbors() {
    // An agent that does not distance, surrounded by ten distancing
    // neighbors, gets no aggregated neighbor direction: its steering
    // stays a random walk. The neighbors do record one.
    let params = Params::standard();
    let mut agents: Vec<(Position, bool, bool)> = vec![(pos(640, 360), false, false)];
    for k in 0..10i64 {
        agents.push((pos(630 + 2 * k, 355 + k), false, true));
    }
    let mut pop = make_population(&agents, &params);
    pop.neighbor_scan(&params);
    assert!(pop.neighbor_lists[0].neighbors_direction.is_none());
    for k in 1..11 {
        assert!(pop.neighbor_lists[k].neighbors_direction.is_some());
    }
}

#[test]
fn determinism_under_fixed_seed() {
    // Two runs from the same seed and the same dt sequence agree bit for
    // bit on every agent field, tick after tick.
    let params = Params::standard();
    let agents = [
        (pos(100, 100), true, false),
        (pos(110, 100), false, true),
        (pos(500, 400), false, false),
        (pos(505, 402), false, true),
        (pos(1200, 700), true, true),
    ];
    let mut pop_a = make_population(&agents, &params);
    let mut pop_b = make_population(&agents, &params);
    let mut rng_a = SimRng::seeded(42);
    let mut rng_b = SimRng::seeded(42);
    let dts = [16_667i64, 20_000, 5_000, 33_333, 16_667];
    for step in 0..50 {
        let dt = dts[step % dts.len()];
        pop_a.tick(&mut rng_a, dt, &params);
        pop_b.tick(&mut rng_b, dt, &params);
        for i in 0..pop_a.positions.len() {
            assert_eq!(pop_a.positions[i], pop_b.positions[i]);
            assert_eq!(pop_a.directions[i], pop_b.directions[i]);
            assert_eq!(pop_a.statuses[i], pop_b.statuses[i]);
        }
    }
}

#[test]
fn init_is_deterministic_and_well_formed() {
    let params = Params::standard();
    let mut rng_a = SimRng::seeded(7);
    let mut rng_b = SimRng::seeded(7);
    let pop_a = Population::init(50, &params, &mut rng_a);
    let pop_b = Population::init(50, &params, &mut rng_b);
    assert_eq!(pop_a.positions.len(), 50);
    assert_in_plane(&pop_a, &params);
    assert_scratch_clear(&pop_a);
    for i in 0..50 {
        assert_eq!(pop_a.positions[i], pop_b.positions[i]);
        assert_eq!(pop_a.statuses[i], pop_b.statuses[i]);
        assert_eq!(pop_a.directions[i], east());
        assert!(!pop_a.statuses[i].is_traveling);
        assert_eq!(pop_a.statuses[i].id, i);
    }
}

#[test]
fn infection_is_monotone_across_ticks() {
    // Once infected, an agent stays infected, whatever else happens.
    let params = Params::standard();
    let mut rng = SimRng::seeded(11);
    let mut pop = Population::init(40, &params, &mut rng);
    let mut ever_infected: Vec<bool> = pop.statuses.iter().map(|s| s.is_infected).collect();
    for _ in 0..30 {
        pop.tick(&mut rng, 16_667, &params);
        for i in 0..40 {
            if ever_infected[i] {
                assert!(pop.statuses[i].is_infected);
            }
            ever_infected[i] = pop.statuses[i].is_infected;
        }
    }
}

#[test]
fn scratch_cleared_after_every_tick() {
    // Dense population so neighbor scratch really fills mid-tick.
    let params = Params::standard();
    let mut agents: Vec<(Position, bool, bool)> = Vec::new();
    for k in 0..12i64 {
        agents.push((pos(640 + k, 360), k % 3 == 0, k % 2 == 0));
    }
    let mut pop = make_population(&agents, &params);
    let mut rng = SimRng::seeded(13);
    for _ in 0..10 {
        pop.tick(&mut rng, 16_667, &params);
        assert_scratch_clear(&pop);
        assert_in_plane(&pop, &params);
        assert_directions_unit(&pop);
    }
}

#[test]
fn infection_roll_monotone_in_probability() {
    // Sample for sample, a higher probability converts whenever a lower
    // one does.
    let chances = [0i64, 1, 50_000, 200_000, 999_999, 1_000_000];
    let samples = [0u64, 1, 49_999, 50_000, 199_999, 200_000, 999_999];
    for &u in samples.iter() {
        for w in chances.windows(2) {
            let lo = infection_roll(u, w[0]);
            let hi = infection_roll(u, w[1]);
            assert!(!lo || hi);
        }
    }
    assert!(!infection_roll(100_000, 50_000));
    assert!(infection_roll(100_000, 200_000));
    assert!(!infection_roll(0, 0));
    assert!(infection_roll(999_999, 1_000_000));
}

#[test]
fn steering_away_from_single_neighbor_is_exact() {
    // A distancing agent heading east with one neighbor heading north:
    // the aggregated direction is north, and steering goes southeast.
    let params = Params::standard();
    let positions = vec![pos(640, 360), pos(650, 360)];
    let directions = vec![east(), Direction { x: 0, y: FP_SCALE }];
    let infected = vec![false, false];
    let dist_kept = vec![true, false];
    let mut pop = Population::from_parts(positions, directions, infected, dist_kept, &params);
    pop.neighbor_scan(&params);
    let agg = pop.neighbor_lists[0].neighbors_direction.unwrap();
    assert_eq!(agg, Direction { x: 0, y: FP_SCALE });
    let mut rng = SimRng::seeded(17);
    pop.steering(&mut rng, &params);
    // normalize((10^6, 0) - (0, 10^6)): 10^12 / 1414213 per component.
    assert_eq!(pop.directions[0], Direction { x: 707_107, y: -707_107 });
}
