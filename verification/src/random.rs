//! Random draws for the cosmetic side effects: sound pitch variation and
//! enemy respawn placement.
//!
//! The simulation never depends on which value comes back, only on its
//! range, so the contract states the range and nothing more.

use vstd::prelude::*;

verus! {

/// Lowest sound pitch, in thousandths of normal speed.
pub const PITCH_MIN_MILLIS: u64 = 900;

/// Highest sound pitch, in thousandths of normal speed.
pub const PITCH_MAX_MILLIS: u64 = 1100;

/// One full turn, in milliradians (the whole-number floor of 2000 pi).
pub const FULL_TURN_MILLIRAD: u64 = 6283;

/// Relies on fastrand::u64: a draw from `0..n` is below `n`, and the call
/// panics only when the range is empty.
#[verifier::external_body]
fn random_below(n: u64) -> (r: u64)
    requires
        n >= 1,
    ensures
        r < n,
{
    fastrand::u64(0..n)
}

/// Draws a sound pitch, in thousandths: somewhere in `[0.9, 1.1]` of normal
/// playback speed.
pub fn random_pitch_millis() -> (r: u64)
    ensures
        PITCH_MIN_MILLIS <= r <= PITCH_MAX_MILLIS,
{
    let span = PITCH_MAX_MILLIS - PITCH_MIN_MILLIS;
    PITCH_MIN_MILLIS + random_below(span + 1)
}

/// Draws an angle on the game's bounding ring, in milliradians: somewhere in
/// `[0, 2 pi)`.
pub fn random_angle_millirad() -> (r: u64)
    ensures
        r < FULL_TURN_MILLIRAD,
{
    random_below(FULL_TURN_MILLIRAD)
}

} // verus!
