//! Simulation core of a small tile-based game: a fox walks a grid, uses fox holes
//! to jump across the map, must keep away from wolves, and leaves short-lived
//! particle and screen effects behind. Positions are fixed-point world
//! coordinates and durations are whole microseconds, so every frame is exact and
//! replayable.
pub mod input;
pub mod model;
pub mod read_only_input;
pub mod view_models;

use vstd::prelude::*;

verus! {

} // verus!
