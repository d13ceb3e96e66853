//! A two-player Pong match, played tick by tick on an integer grid.
//!
//! Lengths are whole grid steps of a thousand-millionth of a field unit,
//! time is whole nanoseconds and speeds are field units per second, so that
//! a speed times an elapsed time is a length with nothing rounded away. The host converts
//! at its edge: it measures the window and the clock, asks which keys are
//! held, and paints what `scene` lists.
//!
//! Every executable function has a contract over mathematical integers. A
//! function that changes something is named by what it does (`move_ball`),
//! the value that it computes by what has been done (`moved_ball`).
//!
//! - `geometry`: points, vectors, fields, clamping and overlap of boxes.
//! - `serve`: the random serve, the only place where chance enters.
//! - `state`: the sizes and speeds, the state of a match, its kickoff.
//! - `step`: one tick, as a whole and phase by phase.
//! - `laws`: what holds of every tick and of every run of ticks.
//! - `scene`: the list of what there is to draw.

pub mod geometry;
pub mod laws;
pub mod scene;
pub mod serve;
pub mod state;
pub mod step;
