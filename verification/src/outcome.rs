//! The outcome detector: the drown rule.
//!
//! Runs every tick, but skips evaluation while the player is mid-jump with
//! no landing this tick, so a jump in flight can never drown.  Otherwise
//! the player drowns — a transition to game over is requested — when some
//! overlapping leaf is fully decayed, or when no leaf overlaps at all and
//! the player is away from the origin tile.  The origin tile is exempt: it
//! is the guaranteed starting leaf and may momentarily report no overlap
//! during setup.
//!
//! The origin exemption compares grid coordinates, not world coordinates,
//! so it cannot suffer from inexact world-position equality.

use crate::field::LeafField;
use crate::leaf::{Leaf, DECAY_FULL};
use crate::player::{Player, PlayerPos};
use crate::GameState;
use vstd::prelude::*;

verus! {

/// Whether some reported leaf is fully decayed.
pub open spec fn spec_on_rotten_leaf(overlapping: Seq<u64>, leaves: Seq<Leaf>) -> bool {
    exists|i: int|
        0 <= i < overlapping.len() && leaves[overlapping[i] as int].decay >= DECAY_FULL
}

/// The drown rule: the transition requested, if any, given the player's
/// jump state, whether a landing fired this tick, the leaves overlapping
/// the player's footprint, and the field.
pub open spec fn spec_drown_outcome(
    player: Player,
    pos: PlayerPos,
    landed: bool,
    overlapping: Seq<u64>,
    leaves: Seq<Leaf>,
) -> Option<GameState> {
    if player.jumping && !landed {
        None
    } else if spec_on_rotten_leaf(overlapping, leaves) {
        Some(GameState::GameOver)
    } else if overlapping.len() == 0 && !(pos.0.x == 0 && pos.0.y == 0) {
        Some(GameState::GameOver)
    } else {
        None
    }
}

/// Decides whether the player drowned this tick.  `overlapping` holds the
/// handles of the leaves currently overlapping the player's footprint, as
/// reported by the collision collaborator; every handle must be a live
/// leaf, anything else is a scheduler fault.
pub fn detect_drown(
    player: &Player,
    pos: &PlayerPos,
    landed: bool,
    overlapping: &Vec<u64>,
    leaves: &LeafField,
) -> (r: Option<GameState>)
    requires
        forall|i: int|
            0 <= i < overlapping@.len() ==> overlapping@[i] < leaves.leaves@.len(),
    ensures
        r == spec_drown_outcome(*player, *pos, landed, overlapping@, leaves.leaves@),
{
    if player.jumping && !landed {
        return None;
    }
    let n = overlapping.len();
    let nleaves = leaves.len();
    let mut i: usize = 0;
    let mut rotten = false;
    while i < n
        invariant
            i <= n,
            n == overlapping@.len(),
            nleaves == leaves.leaves@.len(),
            forall|j: int| 0 <= j < n ==> overlapping@[j] < leaves.leaves@.len(),
            rotten == exists|j: int|
                0 <= j < i && leaves.leaves@[overlapping@[j] as int].decay >= DECAY_FULL,
        decreases n - i,
    {
        let handle = overlapping[i];
        proof {
            assert(overlapping@[i as int] < leaves.leaves@.len());
            assert(handle < nleaves as u64);
        }
        let here = leaves.get(handle as usize).decay >= DECAY_FULL;
        if here {
            rotten = true;
            proof {
                assert(leaves.leaves@[overlapping@[i as int] as int].decay >= DECAY_FULL);
                assert(exists|j: int|
                    0 <= j < i + 1 && leaves.leaves@[overlapping@[j] as int].decay >= DECAY_FULL);
            }
        }
        i = i + 1;
    }
    if rotten {
        Some(GameState::GameOver)
    } else if n == 0 && !(pos.0.x == 0 && pos.0.y == 0) {
        Some(GameState::GameOver)
    } else {
        None
    }
}

} // verus!
