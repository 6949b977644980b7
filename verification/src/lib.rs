//! Simulation kernel for a contagion spreading through a population of
//! autonomous agents on a bounded 2D plane with toroidal wrap.
//!
//! All plane coordinates, directions, speeds and probabilities are held in
//! signed 64-bit fixed-point with one unit split into `FP_SCALE` parts, so
//! that every step of the per-tick pipeline is exact integer arithmetic.
//! The per-tick pipeline runs four phases in order: neighbor scan, steering,
//! infection roll, motion with boundary wrap; a pure render pass then turns
//! the agent state into drawing primitives for a window host.

pub mod components;
pub mod entities;
pub mod game;
pub mod render;
pub mod rng;
pub mod settings;
pub mod systems;
pub mod util;
