//! The render pass: a pure function from agent state to drawing
//! primitives in pixel coordinates.
//!
//! The window host is expected to clear the draw surface to white before
//! drawing the primitives of a tick and to present it afterwards; the
//! pass itself only reads the population.

use vstd::prelude::*;
use crate::components::{Position, Status};
use crate::game::Population;
use crate::settings::Params;

verus! {

/// A color of the draw palette.
#[derive(Clone, Copy, Debug, PartialEq, Eq, Structural)]
pub enum Color {
    /// Background.
    White,
    /// Ordinary agent.
    Black,
    /// Infected agent, and the transmission outline.
    Red,
    /// Distancing agent.
    Blue,
    /// Traveling agent.
    Green,
}

/// Outline thickness of the transmission-radius circle: 1.5 px, fixed
/// point.
pub const OUTLINE_THICKNESS_FP: i64 = 1_500_000;

/// One drawing primitive; coordinates are the circle center, fixed point.
#[derive(Clone, Copy, Debug, PartialEq, Eq, Structural)]
pub enum DrawCmd {
    /// A filled circle.
    FilledCircle {
        /// Center, horizontal.
        x: i64,
        /// Center, vertical.
        y: i64,
        /// Radius.
        radius_fp: i64,
        /// Fill color.
        color: Color,
    },
    /// A hollow circle drawn as an outline.
    OutlinedCircle {
        /// Center, horizontal.
        x: i64,
        /// Center, vertical.
        y: i64,
        /// Radius.
        radius_fp: i64,
        /// Outline thickness.
        thickness_fp: i64,
        /// Outline color.
        color: Color,
    },
}

/// Fill color of an agent, chosen by priority: traveling green, else
/// infected red, else distancing blue, else black.
pub open spec fn fill_color(st: Status) -> Color {
    if st.is_traveling {
        Color::Green
    } else if st.is_infected {
        Color::Red
    } else if st.is_dist_kept {
        Color::Blue
    } else {
        Color::Black
    }
}

/// Outline color of the transmission circle: the fill priority with red
/// substituted as the default. The outline is drawn for infected agents
/// only, so the default case never shows.
pub open spec fn outline_color(st: Status) -> Color {
    if st.is_traveling {
        Color::Green
    } else if st.is_infected {
        Color::Red
    } else if st.is_dist_kept {
        Color::Blue
    } else {
        Color::Red
    }
}

/// The primitives one agent contributes: its filled body and, when it is
/// infected, the hollow transmission-radius circle.
pub open spec fn agent_cmds(p: Position, st: Status, params: Params) -> Seq<DrawCmd> {
    let fill = DrawCmd::FilledCircle {
        x: p.x,
        y: p.y,
        radius_fp: params.entity_radius_fp,
        color: fill_color(st),
    };
    if st.is_infected {
        seq![
            fill,
            DrawCmd::OutlinedCircle {
                x: p.x,
                y: p.y,
                radius_fp: params.infection_radius_fp,
                thickness_fp: OUTLINE_THICKNESS_FP,
                color: outline_color(st),
            },
        ]
    } else {
        seq![fill]
    }
}

/// The primitives of agents 0..k, in agent order.
pub open spec fn render_upto(
    positions: Seq<Position>,
    statuses: Seq<Status>,
    k: int,
    params: Params,
) -> Seq<DrawCmd>
    decreases k,
{
    if k <= 0 {
        Seq::empty()
    } else {
        render_upto(positions, statuses, k - 1, params) + agent_cmds(
            positions[k - 1],
            statuses[k - 1],
            params,
        )
    }
}

/// Emits the primitives of the whole population, in agent order: one
/// filled circle per agent, colored by priority, and one outlined
/// transmission circle per infected agent.
pub fn render(pop: &Population, params: &Params) -> (r: Vec<DrawCmd>)
    requires
        pop.wf(*params),
    ensures
        r@ == render_upto(pop.positions@, pop.statuses@, pop.n(), *params),
{
    let n = pop.positions.len();
    let mut cmds: Vec<DrawCmd> = Vec::new();
    for i in 0..n
        invariant
            pop.wf(*params),
            n == pop.n(),
            cmds@ == render_upto(pop.positions@, pop.statuses@, i as int, *params),
    {
        let p = pop.positions[i];
        let st = pop.statuses[i];
        let color = if st.is_traveling {
            Color::Green
        } else if st.is_infected {
            Color::Red
        } else if st.is_dist_kept {
            Color::Blue
        } else {
            Color::Black
        };
        cmds.push(
            DrawCmd::FilledCircle { x: p.x, y: p.y, radius_fp: params.entity_radius_fp, color },
        );
        if st.is_infected {
            let ocolor = if st.is_traveling {
                Color::Green
            } else {
                Color::Red
            };
            cmds.push(
                DrawCmd::OutlinedCircle {
                    x: p.x,
                    y: p.y,
                    radius_fp: params.infection_radius_fp,
                    thickness_fp: OUTLINE_THICKNESS_FP,
                    color: ocolor,
                },
            );
        }
        proof {
            assert(cmds@ =~= render_upto(pop.positions@, pop.statuses@, i + 1, *params));
        }
    }
    cmds
}

} // verus!
