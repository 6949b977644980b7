//! The render pass: colors by priority, primitives per agent.

use covid_sim::components::{Direction, Position};
use covid_sim::game::Population;
use covid_sim::render::{render, Color, DrawCmd, OUTLINE_THICKNESS_FP};
use covid_sim::settings::{Params, FP_SCALE};

fn four_agents() -> (Population, Params) {
    let params = Params::standard();
    let positions = vec![
        Position { x: 10_000_000, y: 20_000_000 },
        Position { x: 30_000_000, y: 40_000_000 },
        Position { x: 50_000_000, y: 60_000_000 },
        Position { x: 70_000_000, y: 80_000_000 },
    ];
    let east = Direction { x: FP_SCALE, y: 0 };
    let directions = vec![east, east, east, east];
    let infected = vec![false, true, false, true];
    let dist_kept = vec![false, false, true, true];
    (Population::from_parts(positions, directions, infected, dist_kept, &params), params)
}

#[test]
fn render_colors_by_priority() {
    let (pop, params) = four_agents();
    let cmds = render(&pop, &params);
    // Plain, infected (+outline), distancing, infected distancing (+outline).
    assert_eq!(cmds.len(), 6);
    assert_eq!(
        cmds[0],
        DrawCmd::FilledCircle {
            x: 10_000_000,
            y: 20_000_000,
            radius_fp: params.entity_radius_fp,
            color: Color::Black,
        }
    );
    assert_eq!(
        cmds[1],
        DrawCmd::FilledCircle {
            x: 30_000_000,
            y: 40_000_000,
            radius_fp: params.entity_radius_fp,
            color: Color::Red,
        }
    );
    assert_eq!(
        cmds[2],
        DrawCmd::OutlinedCircle {
            x: 30_000_000,
            y: 40_000_000,
            radius_fp: params.infection_radius_fp,
            thickness_fp: OUTLINE_THICKNESS_FP,
            color: Color::Red,
        }
    );
    assert_eq!(
        cmds[3],
        DrawCmd::FilledCircle {
            x: 50_000_000,
            y: 60_000_000,
            radius_fp: params.entity_radius_fp,
            color: Color::Blue,
        }
    );
    // Infection outranks distancing for the fill.
    assert_eq!(
        cmds[4],
        DrawCmd::FilledCircle {
            x: 70_000_000,
            y: 80_000_000,
            radius_fp: params.entity_radius_fp,
            color: Color::Red,
        }
    );
    assert!(matches!(cmds[5], DrawCmd::OutlinedCircle { color: Color::Red, .. }));
}

#[test]
fn render_traveling_agent_is_green() {
    let (mut pop, params) = four_agents();
    pop.statuses[1].is_traveling = true;
    let cmds = render(&pop, &params);
    assert!(matches!(cmds[1], DrawCmd::FilledCircle { color: Color::Green, .. }));
    // Still infected, so the outline is emitted, green by the priority.
    assert!(matches!(cmds[2], DrawCmd::OutlinedCircle { color: Color::Green, .. }));
}

#[test]
fn render_emits_one_outline_per_infected_agent() {
    let (pop, params) = four_agents();
    let cmds = render(&pop, &params);
    let outlines = cmds
        .iter()
        .filter(|c| matches!(c, DrawCmd::OutlinedCircle { .. }))
        .count();
    let infected = pop.statuses.iter().filter(|s| s.is_infected).count();
    assert_eq!(outlines, infected);
    assert_eq!(cmds.len(), pop.positions.len() + infected);
}
