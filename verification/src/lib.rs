//! Simulation core of a small arcade game: a frog hops between lily leaves,
//! attacks insects with its tongue, and loses when it rests on a fully
//! decayed leaf or on open water.
//!
//! The crate holds the game's logic as a deterministic simulation over plain
//! integers: leaf decay and restoration, the player's jump state machine, the
//! tongue attack state machine, the game-over rule, and a generic one-shot
//! adapter for state-transition notifications.  Rendering, input devices,
//! audio playback, physics and the easing engine are outside collaborators:
//! their results enter the simulation as plain values and the decisions flow
//! back out as events.
//!
//! Time is measured in units of 1/3000 of a second, the coarsest unit in
//! which both a 60 Hz frame (50 units) and a millisecond (3 units) are whole
//! numbers, so every update is exact integer arithmetic.

pub mod collision;
pub mod enemy;
pub mod field;
pub mod grid;
pub mod leaf;
pub mod outcome;
pub mod player;
pub mod random;
pub mod screens;
pub mod state_transition;
pub mod timeline;
pub mod tongue;
pub mod world;

pub use enemy::{EnemyKillEvent, RespawnOrder};
pub use field::LeafField;
pub use grid::{GridPos, PlayerAction};
pub use leaf::Leaf;
pub use player::{Player, PlayerPos};
pub use screens::GameOverState;
pub use state_transition::{StateStore, StateTransitionEvent};
pub use timeline::{Segment, Timeline};
pub use tongue::Tongue;
pub use world::{GameWorld, TickEvents, TickInput};

use vstd::prelude::*;

verus! {

/// Number of time units in one second.
pub const UNITS_PER_SECOND: u64 = 3000;

/// Number of time units in one 60 Hz frame.
pub const UNITS_PER_FRAME: u64 = 50;

/// Number of time units in one millisecond.
pub const UNITS_PER_MS: u64 = 3;

/// The active top-level screen of the game.
///
/// Exactly one variant is active at a time.  The session starts in
/// `AssetLoading`, moves to `Title`, and then loops through `InGame` and
/// `GameOver` as rounds are played and lost.
#[derive(Clone, Copy, Debug, PartialEq, Eq, Structural)]
pub enum GameState {
    AssetLoading,
    Title,
    InGame,
    GameOver,
}

} // verus!
