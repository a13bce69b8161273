//! A verified kernel for a kingdom-management simulation: a ruler trades
//! land, plants acres and feeds a population, a seeded yearly event pipeline
//! resolves harvest, vermin, migration and epidemic, and a scoring function
//! rates the reign when the game ends.

use vstd::prelude::*;

pub mod actions;
pub mod event;
pub mod events;
pub mod rng;
pub mod scoring;
pub mod state;

pub use actions::{ActionResult, GameAction};
pub use event::EventHandler;
pub use events::EventRecord;
pub use scoring::{evaluate_performance, PerformanceRating, Score};
pub use state::{GamePhase, GameState};

verus! {

} // verus!
