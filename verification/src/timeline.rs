//! An explicit per-entity animation timeline.
//!
//! The easing engine used by the game is a collaborator: starting an
//! animation returns immediately and its effect is observed only through
//! per-tick values and a later completion signal.  This module models that
//! contract as a small state machine: a queue of segments, the elapsed time
//! inside the current segment, and the value an empty timeline rests at.
//! Advancing consumes elapsed time, pops finished segments in order, and
//! hands back their completion signals.  Values are interpolated linearly;
//! the collaborator's easing curves only bend the path between the same
//! endpoints, so every decision of the simulation (signal timing, start and
//! end values) is captured exactly.
//!
//! Replacing a timeline's segments implicitly cancels the old animation
//! (last-writer-wins), which the game relies on when re-triggering the
//! camera punch or the tongue length animation.

use vstd::arithmetic::div_mod::{lemma_div_is_ordered, lemma_div_multiples_vanish};
use vstd::arithmetic::mul::lemma_mul_inequality;
use vstd::prelude::*;

verus! {

/// Largest value a segment endpoint may take.
pub const MAX_ANIM_VALUE: u64 = 0x4000_0000;

/// Largest duration of a single segment, in time units.
pub const MAX_SEGMENT_DURATION: u64 = 0x8000_0000;

/// Largest time delta a single advance accepts, in time units.
pub const MAX_ADVANCE_UNITS: u64 = 0x100_0000;

/// One animation segment: interpolate from `start_value` to `end_value`
/// over `duration` time units, then emit `signal`, if any.
#[derive(Clone, Copy, Debug, PartialEq, Eq, Structural)]
pub struct Segment {
    pub start_value: u64,
    pub end_value: u64,
    pub duration: u64,
    pub signal: Option<u64>,
}

impl Segment {
    /// Well-formedness: a positive, bounded duration and bounded endpoints.
    pub open spec fn wf(self) -> bool {
        &&& 1 <= self.duration <= MAX_SEGMENT_DURATION
        &&& self.start_value <= MAX_ANIM_VALUE
        &&& self.end_value <= MAX_ANIM_VALUE
    }

    /// The interpolated value `elapsed` time units into this segment.
    pub open spec fn spec_value_at(self, elapsed: int) -> int {
        if self.end_value >= self.start_value {
            self.start_value + (self.end_value - self.start_value) * elapsed / (
            self.duration as int)
        } else {
            self.start_value - (self.start_value - self.end_value) * elapsed / (
            self.duration as int)
        }
    }
}

/// The segments, elapsed time and rest value left after consuming `dt` time
/// units.
pub open spec fn spec_advanced(segs: Seq<Segment>, elapsed: int, dt: int, rest: int) -> (
    Seq<Segment>,
    int,
    int,
)
    decreases segs.len(),
{
    if segs.len() == 0 {
        (segs, 0int, rest)
    } else if elapsed + dt < segs[0].duration {
        (segs, elapsed + dt, rest)
    } else {
        spec_advanced(segs.drop_first(), 0, elapsed + dt - segs[0].duration, segs[0].end_value as int)
    }
}

/// The completion signals emitted, in order, while consuming `dt` time
/// units.
pub open spec fn spec_signals(segs: Seq<Segment>, elapsed: int, dt: int) -> Seq<u64>
    decreases segs.len(),
{
    if segs.len() == 0 || elapsed + dt < segs[0].duration {
        Seq::empty()
    } else {
        let tail = spec_signals(segs.drop_first(), 0, elapsed + dt - segs[0].duration);
        match segs[0].signal {
            Some(t) => seq![t] + tail,
            None => tail,
        }
    }
}

/// The animated value after consuming `dt` time units.
pub open spec fn spec_value_after_advance(
    segs: Seq<Segment>,
    elapsed: int,
    dt: int,
    rest: int,
) -> int {
    let r = spec_advanced(segs, elapsed, dt, rest);
    if r.0.len() > 0 {
        r.0[0].spec_value_at(r.1)
    } else {
        r.2
    }
}

/// Advancing never adds segments: what is left is a suffix of what was
/// queued.
pub proof fn lemma_advanced_len(segs: Seq<Segment>, elapsed: int, dt: int, rest: int)
    ensures
        spec_advanced(segs, elapsed, dt, rest).0.len() <= segs.len(),
    decreases segs.len(),
{
    if segs.len() == 0 || elapsed + dt < segs[0].duration {
    } else {
        lemma_advanced_len(
            segs.drop_first(),
            0,
            elapsed + dt - segs[0].duration,
            segs[0].end_value as int,
        );
    }
}

/// An animation timeline: the queued segments, the time elapsed inside the
/// first one, and the value the timeline rests at when no segment is left.
pub struct Timeline {
    pub segments: Vec<Segment>,
    pub elapsed: u64,
    pub rest_value: u64,
}

impl Timeline {
    /// Well-formedness: every segment is well formed, the elapsed time lies
    /// inside the current segment, and the rest value is bounded.
    pub open spec fn inv(self) -> bool {
        &&& forall|i: int| 0 <= i < self.segments@.len() ==> self.segments@[i].wf()
        &&& self.segments@.len() > 0 ==> self.elapsed < self.segments@[0].duration
        &&& self.segments@.len() == 0 ==> self.elapsed == 0
        &&& self.rest_value <= MAX_ANIM_VALUE
    }

    /// The currently animated value.
    pub open spec fn spec_value(self) -> int {
        if self.segments@.len() > 0 {
            self.segments@[0].spec_value_at(self.elapsed as int)
        } else {
            self.rest_value as int
        }
    }

    /// Whether an animation is in flight.
    pub open spec fn spec_active(self) -> bool {
        self.segments@.len() > 0
    }

    /// Whether an animation is in flight.
    pub fn is_active(&self) -> (r: bool)
        ensures
            r == self.spec_active(),
    {
        self.segments.len() > 0
    }

    /// An idle timeline resting at the given value.
    pub fn at_rest(value: u64) -> (r: Timeline)
        requires
            value <= MAX_ANIM_VALUE,
        ensures
            r.inv(),
            r.segments@ =~= Seq::<Segment>::empty(),
            r.spec_value() == value,
    {
        Timeline { segments: Vec::new(), elapsed: 0, rest_value: value }
    }

    /// Starts a new animation, cancelling whatever was in flight
    /// (last-writer-wins).
    pub fn start(&mut self, segments: Vec<Segment>)
        requires
            old(self).inv(),
            forall|i: int| 0 <= i < segments@.len() ==> segments@[i].wf(),
        ensures
            final(self).inv(),
            final(self).segments@ == segments@,
            final(self).elapsed == 0,
            final(self).rest_value == old(self).rest_value,
    {
        self.segments = segments;
        self.elapsed = 0;
    }

    /// Consumes `dt` time units: finished segments are popped in order and
    /// their completion signals are returned; each signal is handed out
    /// exactly once.
    pub fn advance(&mut self, dt: u64) -> (signals: Vec<u64>)
        requires
            old(self).inv(),
            dt <= MAX_ADVANCE_UNITS,
        ensures
            final(self).inv(),
            ({
                let r = spec_advanced(
                    old(self).segments@,
                    old(self).elapsed as int,
                    dt as int,
                    old(self).rest_value as int,
                );
                &&& final(self).segments@ == r.0
                &&& final(self).elapsed as int == r.1
                &&& final(self).rest_value as int == r.2
            }),
            signals@ == spec_signals(old(self).segments@, old(self).elapsed as int, dt as int),
    {
        let mut signals: Vec<u64> = Vec::new();
        let mut rem = dt;
        while self.segments.len() > 0 && self.elapsed + rem >= self.segments[0].duration
            invariant
                self.inv(),
                rem <= MAX_ADVANCE_UNITS + MAX_SEGMENT_DURATION,
                spec_advanced(
                    old(self).segments@,
                    old(self).elapsed as int,
                    dt as int,
                    old(self).rest_value as int,
                ) == spec_advanced(
                    self.segments@,
                    self.elapsed as int,
                    rem as int,
                    self.rest_value as int,
                ),
                spec_signals(old(self).segments@, old(self).elapsed as int, dt as int) =~= signals@
                    + spec_signals(self.segments@, self.elapsed as int, rem as int),
            decreases self.segments.len(),
        {
            let seg = self.segments.remove(0);
            rem = self.elapsed + rem - seg.duration;
            self.elapsed = 0;
            self.rest_value = seg.end_value;
            if let Some(t) = seg.signal {
                signals.push(t);
            }
        }
        if self.segments.len() > 0 {
            self.elapsed = self.elapsed + rem;
        }
        signals
    }

    /// The currently animated value, by linear interpolation inside the
    /// current segment.
    pub fn current_value(&self) -> (r: u64)
        requires
            self.inv(),
        ensures
            r as int == self.spec_value(),
            r <= MAX_ANIM_VALUE,
    {
        if self.segments.len() > 0 {
            let seg = self.segments[0];
            let e = self.elapsed;
            proof {
                lemma_interp_bounded(seg, e as int);
            }
            if seg.end_value >= seg.start_value {
                let k = seg.end_value - seg.start_value;
                proof {
                    assert((k as int) * (e as int) <= (MAX_ANIM_VALUE as int) * (
                    MAX_SEGMENT_DURATION as int)) by (nonlinear_arith)
                        requires
                            0 <= k <= MAX_ANIM_VALUE,
                            0 <= e <= MAX_SEGMENT_DURATION,
                    ;
                }
                seg.start_value + k * e / seg.duration
            } else {
                let k = seg.start_value - seg.end_value;
                proof {
                    assert((k as int) * (e as int) <= (MAX_ANIM_VALUE as int) * (
                    MAX_SEGMENT_DURATION as int)) by (nonlinear_arith)
                        requires
                            0 <= k <= MAX_ANIM_VALUE,
                            0 <= e <= MAX_SEGMENT_DURATION,
                    ;
                }
                seg.start_value - k * e / seg.duration
            }
        } else {
            self.rest_value
        }
    }
}

/// Inside a well-formed segment the interpolated value stays between the
/// segment's endpoints.
pub proof fn lemma_interp_bounded(seg: Segment, elapsed: int)
    requires
        seg.wf(),
        0 <= elapsed < seg.duration,
    ensures
        seg.end_value >= seg.start_value ==> seg.start_value <= seg.spec_value_at(elapsed)
            <= seg.end_value,
        seg.end_value < seg.start_value ==> seg.end_value <= seg.spec_value_at(elapsed)
            <= seg.start_value,
{
    let d = seg.duration as int;
    if seg.end_value >= seg.start_value {
        let k = seg.end_value - seg.start_value;
        lemma_mul_inequality(elapsed, d, k);
        lemma_div_is_ordered(k * elapsed, k * d, d);
        lemma_div_multiples_vanish(k, d);
        assert(k * elapsed >= 0) by (nonlinear_arith)
            requires
                k >= 0,
                elapsed >= 0,
        ;
        assert(k * elapsed / d >= 0);
    } else {
        let k = seg.start_value - seg.end_value;
        lemma_mul_inequality(elapsed, d, k);
        lemma_div_is_ordered(k * elapsed, k * d, d);
        lemma_div_multiples_vanish(k, d);
        assert(k * elapsed >= 0) by (nonlinear_arith)
            requires
                k >= 0,
                elapsed >= 0,
        ;
        assert(k * elapsed / d >= 0);
    }
}

} // verus!
