//! The tongue attack state machine.
//!
//! The tongue rests invisible at its default length.  A primary pointer
//! press while the player is resting and the tongue idle makes it visible
//! and starts a length animation out to the pointer; the extend animation's
//! completion starts the retract animation; the retract animation's
//! completion hides the tongue again.  While the tongue is extending and
//! visible, every enemy overlapping its tip is reported killed each tick.
//!
//! Durations scale with the animated distance — longer reach means a slower
//! move — with a fixed floor, and exactly one length animation is in flight
//! at a time: a press during extension or retraction is rejected.  Turning
//! the tongue to face the pointer is the rendering side's trigonometry; the
//! simulation takes only the resulting reach target, a plain length.

use crate::collision::{get_intersections, spec_intersections};
use crate::timeline::{Segment, Timeline, MAX_ANIM_VALUE};
use vstd::prelude::*;

verus! {

/// The tongue's idle length, in world units.
pub const TONGUE_LEN_DEFAULT: u64 = 32;

/// Radius of the tip collision probe, in world units; the reach target is
/// the pointer distance less this.
pub const TONGUE_TIP_RADIUS: u64 = 32;

/// Completion signal of the extend animation.
pub const SIGNAL_EXTEND_DONE: u64 = 0;

/// Completion signal of the retract animation.
pub const SIGNAL_RETRACT_DONE: u64 = 1;

/// Floor of the extend animation's length, in milliseconds.
pub const EXTEND_MIN_MS: u64 = 150;

/// Floor of the retract animation's length, in milliseconds.
pub const RETRACT_MIN_MS: u64 = 400;

/// The player's tongue.
#[derive(Clone, Copy, Debug, PartialEq, Eq, Structural)]
pub struct Tongue {
    /// Current length, in world units; follows the length animation.
    pub length: u64,
    /// Entity handle of the base visual segment.
    pub base: u64,
    /// Entity handle of the tip collision probe.
    pub tip: u64,
    /// Whether an extension is in flight.  Cleared the instant retraction
    /// starts, which closes the kill window early.
    pub extending: bool,
    /// Whether the tongue is shown; kills require it.
    pub visible: bool,
}

/// Duration of an extension out to `target`, in time units: a quarter
/// millisecond per world unit, no shorter than the floor.
pub open spec fn spec_extend_duration(target: int) -> int {
    if target / 4 >= EXTEND_MIN_MS {
        3 * (target / 4)
    } else {
        3 * EXTEND_MIN_MS
    }
}

/// Duration of a retraction from `length`, in time units: half a
/// millisecond per world unit, no shorter than the floor.
pub open spec fn spec_retract_duration(length: int) -> int {
    if length / 2 >= RETRACT_MIN_MS {
        3 * (length / 2)
    } else {
        3 * RETRACT_MIN_MS
    }
}

/// The extend animation: from the idle length (or the target, whichever is
/// shorter) out to the target.
pub open spec fn spec_extend_segment(target: u64) -> Segment {
    Segment {
        start_value: if target < TONGUE_LEN_DEFAULT {
            target
        } else {
            TONGUE_LEN_DEFAULT
        },
        end_value: target,
        duration: spec_extend_duration(target as int) as u64,
        signal: Some(SIGNAL_EXTEND_DONE),
    }
}

/// The retract animation: from the current length back to the idle length
/// (or the current length, whichever is shorter).
pub open spec fn spec_retract_segment(length: u64) -> Segment {
    Segment {
        start_value: length,
        end_value: if length < TONGUE_LEN_DEFAULT {
            length
        } else {
            TONGUE_LEN_DEFAULT
        },
        duration: spec_retract_duration(length as int) as u64,
        signal: Some(SIGNAL_RETRACT_DONE),
    }
}

impl Tongue {
    /// Well-formedness: the length fits the animation value range.
    pub open spec fn inv(self) -> bool {
        self.length <= MAX_ANIM_VALUE
    }

    /// A fresh tongue at idle length, hidden, attached to the given base
    /// segment and tip probe.
    pub fn new(base: u64, tip: u64) -> (r: Tongue)
        ensures
            r == (Tongue {
                length: TONGUE_LEN_DEFAULT,
                base,
                tip,
                extending: false,
                visible: false,
            }),
            r.inv(),
    {
        Tongue { length: TONGUE_LEN_DEFAULT, base, tip, extending: false, visible: false }
    }

    /// Reacts to one completion signal of the length animation.
    ///
    /// The extend animation's completion starts the retract animation and
    /// clears `extending` at once — the kill window closes before the
    /// retraction finishes — and reports `true`.  The retract animation's
    /// completion hides the tongue.  Any other signal changes nothing.
    pub fn on_signal(&mut self, anim: &mut Timeline, signal: u64) -> (retract_started: bool)
        requires
            old(self).inv(),
            old(anim).inv(),
        ensures
            final(self).inv(),
            final(anim).inv(),
            retract_started == (signal == SIGNAL_EXTEND_DONE),
            signal == SIGNAL_EXTEND_DONE ==> {
                &&& *final(self) == (Tongue { extending: false, ..*old(self) })
                &&& final(anim).segments@ =~= seq![spec_retract_segment(old(self).length)]
                &&& final(anim).elapsed == 0
            },
            signal == SIGNAL_RETRACT_DONE ==> {
                &&& *final(self) == (Tongue { visible: false, ..*old(self) })
                &&& *final(anim) == *old(anim)
            },
            signal != SIGNAL_EXTEND_DONE && signal != SIGNAL_RETRACT_DONE ==> {
                &&& *final(self) == *old(self)
                &&& *final(anim) == *old(anim)
            },
    {
        if signal == SIGNAL_EXTEND_DONE {
            let half = self.length / 2;
            let ms = if half >= RETRACT_MIN_MS {
                half
            } else {
                RETRACT_MIN_MS
            };
            let end = if self.length < TONGUE_LEN_DEFAULT {
                self.length
            } else {
                TONGUE_LEN_DEFAULT
            };
            let seg = Segment {
                start_value: self.length,
                end_value: end,
                duration: 3 * ms,
                signal: Some(SIGNAL_RETRACT_DONE),
            };
            let mut segs: Vec<Segment> = Vec::new();
            segs.push(seg);
            anim.start(segs);
            self.extending = false;
            true
        } else {
            if signal == SIGNAL_RETRACT_DONE {
                self.visible = false;
            }
            false
        }
    }

    /// Accepts or rejects a pointer press as the start of a new extension.
    ///
    /// A press starts an extension only while the player is resting, no
    /// length animation is in flight — neither an extension nor a
    /// retraction, which must first return the tongue to idle — and a
    /// pointer position is known (`target` is the pointer's distance from
    /// the tongue base less the tip radius).  An accepted press shows the
    /// tongue and starts the extend animation; a rejected press, including
    /// one with no pointer position recorded yet, changes nothing: absent
    /// context skips the action as normal control flow.
    pub fn try_extend(
        &mut self,
        anim: &mut Timeline,
        clicked: bool,
        player_jumping: bool,
        target: Option<u64>,
    ) -> (started: bool)
        requires
            old(self).inv(),
            old(anim).inv(),
            target matches Some(t) ==> t <= MAX_ANIM_VALUE,
        ensures
            final(self).inv(),
            final(anim).inv(),
            started == (clicked && !player_jumping && !old(self).extending && !old(
                anim,
            ).spec_active() && target is Some),
            started ==> {
                &&& *final(self) == (Tongue { extending: true, visible: true, ..*old(self) })
                &&& final(anim).segments@ =~= seq![spec_extend_segment(target->0)]
                &&& final(anim).elapsed == 0
            },
            !started ==> {
                &&& *final(self) == *old(self)
                &&& *final(anim) == *old(anim)
            },
    {
        if clicked && !player_jumping && !self.extending && !anim.is_active() {
            if let Some(t) = target {
                let quarter = t / 4;
                let ms = if quarter >= EXTEND_MIN_MS {
                    quarter
                } else {
                    EXTEND_MIN_MS
                };
                let start = if t < TONGUE_LEN_DEFAULT {
                    t
                } else {
                    TONGUE_LEN_DEFAULT
                };
                let seg = Segment {
                    start_value: start,
                    end_value: t,
                    duration: 3 * ms,
                    signal: Some(SIGNAL_EXTEND_DONE),
                };
                let mut segs: Vec<Segment> = Vec::new();
                segs.push(seg);
                anim.start(segs);
                self.visible = true;
                self.extending = true;
                return true;
            }
        }
        false
    }

    /// The enemies killed this tick: while the kill window is open — the
    /// tongue extending and visible — every entity overlapping the tip
    /// probe; otherwise none.  Kills are reported each tick the overlap
    /// persists, not de-duplicated across ticks.
    pub fn kill_check(&self, pairs: &Vec<(u64, u64, bool)>) -> (kills: Vec<u64>)
        ensures
            self.extending && self.visible ==> kills@ == spec_intersections(pairs@, self.tip),
            !(self.extending && self.visible) ==> kills@ =~= Seq::<u64>::empty(),
    {
        if self.extending && self.visible {
            get_intersections(pairs, self.tip)
        } else {
            Vec::new()
        }
    }
}

} // verus!
