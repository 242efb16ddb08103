//! Decision rules of the title and game-over screens: the restart loop.
//!
//! The title screen moves into the game on a click or space release; the
//! game-over screen moves back to the title the same way, but only after a
//! short cooldown, so the press that lost the round cannot restart it.  A
//! release over the debug UI overlay belongs to the overlay and is ignored.

use crate::GameState;
use vstd::prelude::*;

verus! {

/// Length of the game-over input cooldown: 800 milliseconds.
pub const GAMEOVER_COOLDOWN_UNITS: u64 = 2400;

/// The game-over screen's input cooldown.
pub struct GameOverState {
    /// Time units left before input is accepted again.
    pub cooldown_remaining: u64,
}

impl GameOverState {
    /// The state entered with the game-over screen: the full cooldown
    /// ahead.
    pub fn enter() -> (r: GameOverState)
        ensures
            r.cooldown_remaining == GAMEOVER_COOLDOWN_UNITS,
    {
        GameOverState { cooldown_remaining: GAMEOVER_COOLDOWN_UNITS }
    }

    /// One tick of the game-over screen: counts the cooldown down, and once
    /// it is spent, a primary-button or space release away from the UI
    /// overlay asks to return to the title.
    pub fn control(&mut self, dt: u64, pointer_over_ui: bool, released: bool) -> (r: Option<
        GameState,
    >)
        ensures
            final(self).cooldown_remaining == if dt >= old(self).cooldown_remaining {
                0u64
            } else {
                (old(self).cooldown_remaining - dt) as u64
            },
            r == if final(self).cooldown_remaining == 0 && !pointer_over_ui && released {
                Some(GameState::Title)
            } else {
                None::<GameState>
            },
    {
        self.cooldown_remaining = if dt >= self.cooldown_remaining {
            0
        } else {
            self.cooldown_remaining - dt
        };
        if self.cooldown_remaining > 0 {
            return None;
        }
        if pointer_over_ui {
            return None;
        }
        if released {
            Some(GameState::Title)
        } else {
            None
        }
    }
}

/// One tick of the title screen: a primary-button or space release away
/// from the UI overlay starts the game.
pub fn title_control(pointer_over_ui: bool, released: bool) -> (r: Option<GameState>)
    ensures
        r == if !pointer_over_ui && released {
            Some(GameState::InGame)
        } else {
            None::<GameState>
        },
{
    if pointer_over_ui {
        return None;
    }
    if released {
        Some(GameState::InGame)
    } else {
        None
    }
}

} // verus!
