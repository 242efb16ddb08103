//! The leaf decay engine.
//!
//! Each lily leaf carries a decay level between 0 (safe) and 1 (fully
//! decayed).  Decay rises fast while the player rests on the leaf or once it
//! is already mostly decayed, falls slowly otherwise, and self-heals after a
//! fixed cooldown once fully decayed.
//!
//! Decay is stored scaled by [`DECAY_FULL`] (so `30000` stands for 1.0) and
//! time in units of 1/3000 s, which makes every rate below a whole number
//! per time unit and every update exact.

use crate::grid::GridPos;
use vstd::prelude::*;

verus! {

/// Decay level standing for 1.0: fully decayed, dangerous to rest on.
pub const DECAY_FULL: u32 = 30000;

/// Decay level standing for 0.8: crossing it upward drops the leaf low with
/// an audible plop.
pub const DECAY_DROP_THRESHOLD: u32 = 24000;

/// Decay level standing for 0.7: above it decay keeps rising even with no
/// player on the leaf (irreversible momentum).
pub const DECAY_STICKY_THRESHOLD: u32 = 21000;

/// Decay gained per time unit while rising: 0.8 per second.
pub const DECAY_RISE_PER_UNIT: u64 = 8;

/// Decay lost per time unit while falling: 0.3 per second.
pub const DECAY_FALL_PER_UNIT: u64 = 3;

/// Length of the restore cooldown: 5 seconds.
pub const RESTORE_DURATION: u64 = 15000;

/// Point of the restore cooldown after which decay eases back toward 0:
/// the final tenth of the cooldown.
pub const RESTORE_FADE_START: u64 = 13500;

/// Largest time delta a single simulation step accepts.
pub const MAX_STEP_UNITS: u64 = 0x1000000;

/// One lily leaf.
#[derive(Clone, Copy, Debug, PartialEq, Eq, Structural)]
pub struct Leaf {
    /// Decay level, scaled by [`DECAY_FULL`]; always within `[0, DECAY_FULL]`.
    pub decay: u32,
    /// The tile this leaf sits on; unique per leaf at any time.
    pub pos: GridPos,
    /// Elapsed time of the restore cooldown, present only after decay
    /// reached [`DECAY_FULL`] and until the cooldown completes.
    pub restore_elapsed: Option<u64>,
}

/// Decay during the final tenth of the restore cooldown, easing linearly
/// back toward 0: the unscaled rule `1 - 10 * (elapsed/duration - 0.9)`
/// scaled by [`DECAY_FULL`].
pub open spec fn spec_restore_fade(elapsed: int) -> int {
    300000 - 20 * elapsed
}

impl Leaf {
    /// Well-formedness: decay stays within `[0, DECAY_FULL]`, and while the
    /// restore cooldown runs, decay is pinned at [`DECAY_FULL`] until the
    /// cooldown's final tenth and then follows the fade rule.
    pub open spec fn inv(self) -> bool {
        &&& self.decay <= DECAY_FULL
        &&& match self.restore_elapsed {
            None => true,
            Some(e) => {
                &&& e < RESTORE_DURATION
                &&& (e <= RESTORE_FADE_START ==> self.decay == DECAY_FULL)
                &&& (e > RESTORE_FADE_START ==> self.decay as int == spec_restore_fade(e as int))
            },
        }
    }

    /// Whether decay rises this step: the player rests on this leaf, or the
    /// leaf is already past the sticky threshold.
    pub open spec fn spec_decay_rises(self, player_pos: GridPos) -> bool {
        self.pos == player_pos || self.decay > DECAY_STICKY_THRESHOLD
    }

    /// The decay level after one cooldown-free step of `dt` time units,
    /// clamped to `[0, DECAY_FULL]`.
    pub open spec fn spec_decayed(self, player_pos: GridPos, dt: int) -> int {
        if self.spec_decay_rises(player_pos) {
            if self.decay + DECAY_RISE_PER_UNIT * dt >= DECAY_FULL {
                DECAY_FULL as int
            } else {
                self.decay + DECAY_RISE_PER_UNIT * dt
            }
        } else {
            if DECAY_FALL_PER_UNIT * dt >= self.decay {
                0
            } else {
                self.decay - DECAY_FALL_PER_UNIT * dt
            }
        }
    }

    /// The whole leaf after one step of `dt` time units.
    pub open spec fn spec_stepped(self, player_pos: GridPos, dt: int) -> Leaf {
        match self.restore_elapsed {
            None => {
                let nd = self.spec_decayed(player_pos, dt);
                Leaf {
                    decay: nd as u32,
                    pos: self.pos,
                    restore_elapsed: if nd == DECAY_FULL { Some(0u64) } else { None },
                }
            },
            Some(e) => {
                if e + dt >= RESTORE_DURATION {
                    Leaf { decay: 0, pos: self.pos, restore_elapsed: None }
                } else if e + dt > RESTORE_FADE_START {
                    Leaf {
                        decay: spec_restore_fade(e + dt) as u32,
                        pos: self.pos,
                        restore_elapsed: Some((e + dt) as u64),
                    }
                } else {
                    Leaf { decay: self.decay, pos: self.pos, restore_elapsed: Some((e + dt) as u64) }
                }
            },
        }
    }

    /// Whether one step of `dt` time units drops the leaf: decay crosses the
    /// drop threshold upward, with no cooldown active.  A downward crossing
    /// never drops.
    pub open spec fn spec_step_drops(self, player_pos: GridPos, dt: int) -> bool {
        &&& self.restore_elapsed is None
        &&& self.decay < DECAY_DROP_THRESHOLD
        &&& self.spec_decayed(player_pos, dt) >= DECAY_DROP_THRESHOLD
    }

    /// A fresh, fully safe leaf on the given tile.
    pub fn new(pos: GridPos) -> (r: Leaf)
        ensures
            r == (Leaf { decay: 0, pos, restore_elapsed: None }),
            r.inv(),
    {
        Leaf { decay: 0, pos, restore_elapsed: None }
    }

    /// Advances this leaf by `dt` time units with the player resting at
    /// `player_pos`, and reports whether the leaf dropped this step.
    ///
    /// The leaf's decay stays within `[0, DECAY_FULL]`, and the drop is
    /// reported exactly on an upward crossing of the drop threshold.
    pub fn step(&mut self, player_pos: GridPos, dt: u64) -> (dropped: bool)
        requires
            old(self).inv(),
            dt <= MAX_STEP_UNITS,
        ensures
            *final(self) == old(self).spec_stepped(player_pos, dt as int),
            dropped == old(self).spec_step_drops(player_pos, dt as int),
            final(self).inv(),
            final(self).decay <= DECAY_FULL,
    {
        match self.restore_elapsed {
            None => {
                let pre = self.decay;
                if self.pos == player_pos || self.decay > DECAY_STICKY_THRESHOLD {
                    let grown = self.decay as u64 + DECAY_RISE_PER_UNIT * dt;
                    self.decay = if grown >= DECAY_FULL as u64 {
                        DECAY_FULL
                    } else {
                        grown as u32
                    };
                } else {
                    let lost = DECAY_FALL_PER_UNIT * dt;
                    self.decay = if lost >= self.decay as u64 {
                        0
                    } else {
                        self.decay - lost as u32
                    };
                }
                if self.decay >= DECAY_FULL {
                    self.restore_elapsed = Some(0);
                }
                pre < DECAY_DROP_THRESHOLD && self.decay >= DECAY_DROP_THRESHOLD
            },
            Some(e) => {
                let elapsed = e + dt;
                if elapsed >= RESTORE_DURATION {
                    self.decay = 0;
                    self.restore_elapsed = None;
                } else {
                    if elapsed > RESTORE_FADE_START {
                        self.decay = (300000u64 - 20 * elapsed) as u32;
                    }
                    self.restore_elapsed = Some(elapsed);
                }
                false
            },
        }
    }
}

/// The spin-speed hash of a leaf: each leaf turns at its own steady rate,
/// derived from its entity handle by one round of xorshift mixing.
pub open spec fn spec_rotation_hash(n: u32) -> u32 {
    let a = n ^ 2463534242u32;
    let b = a ^ (a << 13u32);
    let c = b ^ (b >> 17u32);
    c ^ (c << 5u32)
}

/// Mixes a leaf's entity handle into its idle spin speed seed.
pub fn rotation_hash(n: u32) -> (r: u32)
    ensures
        r == spec_rotation_hash(n),
{
    let a = n ^ 2463534242u32;
    let b = a ^ (a << 13u32);
    let c = b ^ (b >> 17u32);
    c ^ (c << 5u32)
}

/// Once decay reaches [`DECAY_FULL`] it stays there, unmoved by further
/// steps, for the whole restore cooldown up to its final tenth.
pub proof fn lemma_decay_pinned_while_restoring(leaf: Leaf, player_pos: GridPos, dt: int)
    requires
        leaf.inv(),
        leaf.restore_elapsed matches Some(e) && e + dt <= RESTORE_FADE_START,
        0 <= dt,
    ensures
        leaf.decay == DECAY_FULL,
        leaf.spec_stepped(player_pos, dt).decay == DECAY_FULL,
        leaf.spec_stepped(player_pos, dt).restore_elapsed matches Some(e2)
            && e2 == leaf.restore_elapsed->0 + dt,
{
}

/// A well-formed leaf steps to a well-formed leaf, so decay stays within
/// `[0, DECAY_FULL]` over any run of steps.
pub proof fn lemma_step_preserves_inv(leaf: Leaf, player_pos: GridPos, dt: int)
    requires
        leaf.inv(),
        0 <= dt,
    ensures
        leaf.spec_stepped(player_pos, dt).inv(),
        0 <= leaf.spec_stepped(player_pos, dt).decay <= DECAY_FULL,
{
}

/// A drop fires only on an upward crossing: a leaf already at or past the
/// drop threshold, or one on its restore cooldown (whose decay can only
/// move downward), never drops.
pub proof fn lemma_no_drop_downward(leaf: Leaf, player_pos: GridPos, dt: int)
    requires
        leaf.decay >= DECAY_DROP_THRESHOLD || leaf.restore_elapsed is Some,
    ensures
        !leaf.spec_step_drops(player_pos, dt),
{
}

/// When the restore cooldown completes, decay resets to exactly 0 and the
/// cooldown is cleared.
pub proof fn lemma_restore_completes(leaf: Leaf, player_pos: GridPos, dt: int)
    requires
        leaf.inv(),
        leaf.restore_elapsed matches Some(e) && e + dt >= RESTORE_DURATION,
    ensures
        leaf.spec_stepped(player_pos, dt) == (Leaf {
            decay: 0,
            pos: leaf.pos,
            restore_elapsed: None,
        }),
{
}

} // verus!
