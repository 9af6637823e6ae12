//! Grid, obstacle mask and update rules of a two-dimensional Eulerian fluid
//! solver on a staggered grid, and the decisions of the terminal application
//! around it.
//!
//! A [`FluidSim`] owns the five fields of a simulation: horizontal and
//! vertical velocity, pressure, smoke density and the obstacle mask. It is
//! generic in the type of a sample. The arithmetic on samples is the
//! caller's; the library decides which cells every phase of a step reads and
//! writes, in which order, and stores what the caller computed under those
//! rules.
//!
//! A step is driven from outside: after [`FluidSim::begin_step`] the caller
//! asks [`FluidSim::next_action`] what is due, computes it, and hands it back
//! through [`FluidSim::add_gravity`], [`FluidSim::relax`] or
//! [`FluidSim::move_velocity`], until nothing is due. Between gravity and the
//! first relaxation [`FluidSim::clear_pressure`] is due, with which the
//! projection begins. Whatever the caller
//! computes, border cells and obstacles stay frozen, the projection makes
//! its sweeps cell by cell in the order of the grid, and the step ends after
//! a number of actions that the grid and its obstacles fix.
//!
//! [`state`] holds the mathematical model in which the contracts are
//! written, and [`laws`] what is proved of every simulation.

pub mod advection;
pub mod control;
pub mod editor;
pub mod grid;
pub mod info;
pub mod laws;
pub mod simulator;
pub mod state;
pub mod view;

pub use crate::advection::{FieldType, SampleCells, Transport};
pub use crate::control::{AppConfig, AppState, Command, Key, KeyOutcome, Setting};
pub use crate::editor::{Area, Editor, EditorInfo, MouseButton};
pub use crate::info::format_duration;
pub use crate::simulator::FluidSim;
pub use crate::state::{
    Action, Phase, Relaxed, Scale, SimConfig, SimState, Stencil, PROJECTION_ITERATIONS,
};
