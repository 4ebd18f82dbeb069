//! Simulation core of a grid-based snake game.
//!
//! The library owns the authoritative game state — snake position and
//! shape, movement direction, apple location, alive or frozen status —
//! and advances it deterministically on a fixed time cadence, independent
//! of rendering and input plumbing. A rendering collaborator feeds it
//! elapsed time and direction requests and reads the state back through
//! accessors.

use vstd::prelude::*;

mod direction;
mod game;
mod grid;
mod pacing;
mod rng;

pub use direction::Direction;
pub use game::GameModel;
pub use game::GameState;
pub use game::eat_phase;
pub use game::init_model;
pub use game::lemma_eating_ungated;
pub use game::lemma_growth_keeps_length;
pub use game::lemma_self_collision;
pub use game::lemma_wall_collision;
pub use game::model_wf;
pub use game::moved_cell;
pub use game::random_cell;
pub use game::shifted_body;
pub use game::spec_advance;
pub use game::step_phase;
pub use grid::Cell;
pub use grid::Config;
pub use pacing::lemma_below_interval_no_step;
pub use pacing::lemma_crossing_once_one_step;
pub use pacing::lemma_frozen_run;
pub use pacing::lemma_sum_nonneg;
pub use pacing::run;
pub use pacing::steps_in_call;
pub use pacing::steps_in_run;
pub use pacing::sum_dts;

verus! {

} // verus!
