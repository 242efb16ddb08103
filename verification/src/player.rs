//! The player jump state machine.
//!
//! The player is either resting (`jumping == false`) or mid-jump.  A newly
//! held direction while resting accepts a jump: the target tile is recorded
//! and an animation starts.  The jump commits — the resting position moves
//! to the target and a "landed" signal fires — strictly on the animation's
//! completion signal.  Held directions are tie-broken in the order Up, Down,
//! Left, Right, and requests while mid-jump are ignored.

use crate::grid::{spec_chosen_direction, GridPos, PlayerAction};
use crate::timeline::Segment;
use vstd::prelude::*;

verus! {

/// Completion signal tagged to the jump animation's final segment.
pub const SIGNAL_JUMP_DONE: u64 = 0;

/// Resting sprite scale, in thousandths.
pub const REST_SCALE_MILLIS: u64 = 1000;

/// Sprite scale at the top of a jump, in thousandths.
pub const JUMP_SCALE_MILLIS: u64 = 2000;

/// Camera scale at the top of the camera punch, in thousandths.
pub const JUMP_CAMERA_SCALE_MILLIS: u64 = 1050;

/// Length of each jump phase (up, then down): 200 milliseconds.
pub const JUMP_PHASE_UNITS: u64 = 600;

/// The player's authoritative resting tile.
#[derive(Clone, Copy, Debug, PartialEq, Eq, Structural)]
pub struct PlayerPos(pub GridPos);

/// The player's jump state: the in-flight flag and the target tile of the
/// jump in flight.
#[derive(Clone, Copy, Debug, PartialEq, Eq, Structural)]
pub struct Player {
    pub jumping: bool,
    pub next_pos: GridPos,
}

impl Default for Player {
    /// A resting player targeting the origin tile.
    fn default() -> (r: Player)
        ensures
            r == (Player { jumping: false, next_pos: GridPos { x: 0, y: 0 } }),
    {
        Player { jumping: false, next_pos: GridPos { x: 0, y: 0 } }
    }
}

impl Default for PlayerPos {
    /// The origin tile, where every session starts.
    fn default() -> (r: PlayerPos)
        ensures
            r == PlayerPos(GridPos { x: 0, y: 0 }),
    {
        PlayerPos(GridPos { x: 0, y: 0 })
    }
}

impl Player {
    /// Link between the jump state and the resting position: while resting,
    /// the recorded target is the resting tile itself.
    pub open spec fn linked(self, pos: PlayerPos) -> bool {
        !self.jumping ==> self.next_pos == pos.0
    }

    /// Coordinates far enough from the representation limits that one more
    /// one-tile jump cannot overflow.
    pub open spec fn room_to_jump(self) -> bool {
        self.next_pos.spec_in_range()
    }

    /// Accepts or ignores a jump request from the four held direction
    /// flags.
    ///
    /// A request is accepted exactly when the player is resting and some
    /// direction is held; the chosen direction is the first held one in the
    /// order Up, Down, Left, Right.  Accepting records the target tile one
    /// step away and raises the jumping flag; the resting position itself
    /// does not move until the completion signal arrives.
    pub fn try_start_jump(&mut self, up: bool, down: bool, left: bool, right: bool) -> (r: Option<
        PlayerAction,
    >)
        requires
            old(self).room_to_jump(),
        ensures
            r == if old(self).jumping {
                None
            } else {
                spec_chosen_direction(up, down, left, right)
            },
            r matches Some(dir) ==> *final(self) == (Player {
                jumping: true,
                next_pos: old(self).next_pos.spec_neighbor(dir),
            }),
            r is None ==> *final(self) == *old(self),
    {
        if self.jumping {
            return None;
        }
        let dir = crate::grid::chosen_direction(up, down, left, right);
        if let Some(d) = dir {
            self.jumping = true;
            self.next_pos = self.next_pos.stepped(d);
        }
        dir
    }

    /// Commits the jump on receipt of its completion signal: the resting
    /// position becomes the recorded target, atomically with clearing the
    /// jumping flag.  This is the only way the resting position moves.
    pub fn land(&mut self, pos: &mut PlayerPos)
        ensures
            *final(self) == (Player { jumping: false, next_pos: old(self).next_pos }),
            *final(pos) == PlayerPos(old(self).next_pos),
            final(self).linked(*final(pos)),
    {
        self.jumping = false;
        *pos = PlayerPos(self.next_pos);
    }
}

/// The jump animation on the player's sprite: scale up while translating to
/// the target tile, then scale back down, the completion signal tagged to
/// the second phase.  (Values are the scale in thousandths; the translation
/// shares the same timing.)
pub open spec fn spec_jump_player_segments() -> Seq<Segment> {
    seq![
        Segment {
            start_value: REST_SCALE_MILLIS,
            end_value: JUMP_SCALE_MILLIS,
            duration: JUMP_PHASE_UNITS,
            signal: None,
        },
        Segment {
            start_value: JUMP_SCALE_MILLIS,
            end_value: REST_SCALE_MILLIS,
            duration: JUMP_PHASE_UNITS,
            signal: Some(SIGNAL_JUMP_DONE),
        },
    ]
}

/// The parallel camera punch: scale up and back down, purely visual.
pub open spec fn spec_jump_camera_segments() -> Seq<Segment> {
    seq![
        Segment {
            start_value: REST_SCALE_MILLIS,
            end_value: JUMP_CAMERA_SCALE_MILLIS,
            duration: JUMP_PHASE_UNITS,
            signal: None,
        },
        Segment {
            start_value: JUMP_CAMERA_SCALE_MILLIS,
            end_value: REST_SCALE_MILLIS,
            duration: JUMP_PHASE_UNITS,
            signal: None,
        },
    ]
}

/// The parallel sprite-frame swap (values are frame indices), purely
/// visual: 50 ms, 250 ms, 50 ms, 50 ms.
pub open spec fn spec_jump_image_segments() -> Seq<Segment> {
    seq![
        Segment { start_value: 0, end_value: 1, duration: 150, signal: None },
        Segment { start_value: 1, end_value: 2, duration: 750, signal: None },
        Segment { start_value: 2, end_value: 1, duration: 150, signal: None },
        Segment { start_value: 1, end_value: 0, duration: 150, signal: None },
    ]
}

/// Builds the player-sprite jump animation.
pub fn jump_player_segments() -> (r: Vec<Segment>)
    ensures
        r@ =~= spec_jump_player_segments(),
        forall|i: int| 0 <= i < r@.len() ==> r@[i].wf(),
{
    let mut r: Vec<Segment> = Vec::new();
    r.push(
        Segment {
            start_value: REST_SCALE_MILLIS,
            end_value: JUMP_SCALE_MILLIS,
            duration: JUMP_PHASE_UNITS,
            signal: None,
        },
    );
    r.push(
        Segment {
            start_value: JUMP_SCALE_MILLIS,
            end_value: REST_SCALE_MILLIS,
            duration: JUMP_PHASE_UNITS,
            signal: Some(SIGNAL_JUMP_DONE),
        },
    );
    r
}

/// Builds the camera-punch animation.
pub fn jump_camera_segments() -> (r: Vec<Segment>)
    ensures
        r@ =~= spec_jump_camera_segments(),
        forall|i: int| 0 <= i < r@.len() ==> r@[i].wf(),
{
    let mut r: Vec<Segment> = Vec::new();
    r.push(
        Segment {
            start_value: REST_SCALE_MILLIS,
            end_value: JUMP_CAMERA_SCALE_MILLIS,
            duration: JUMP_PHASE_UNITS,
            signal: None,
        },
    );
    r.push(
        Segment {
            start_value: JUMP_CAMERA_SCALE_MILLIS,
            end_value: REST_SCALE_MILLIS,
            duration: JUMP_PHASE_UNITS,
            signal: None,
        },
    );
    r
}

/// Builds the sprite-frame swap animation.
pub fn jump_image_segments() -> (r: Vec<Segment>)
    ensures
        r@ =~= spec_jump_image_segments(),
        forall|i: int| 0 <= i < r@.len() ==> r@[i].wf(),
{
    let mut r: Vec<Segment> = Vec::new();
    r.push(Segment { start_value: 0, end_value: 1, duration: 150, signal: None });
    r.push(Segment { start_value: 1, end_value: 2, duration: 750, signal: None });
    r.push(Segment { start_value: 2, end_value: 1, duration: 150, signal: None });
    r.push(Segment { start_value: 1, end_value: 0, duration: 150, signal: None });
    r
}

} // verus!
