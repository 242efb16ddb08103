//! Integer grid coordinates and directional input.
//!
//! A leaf tile, and the player's resting place, are identified by an integer
//! pair.  Directional input arrives as four "held" flags; when several are
//! held at once the priority order is Up, Down, Left, Right.

use vstd::prelude::*;

verus! {

/// A grid coordinate: identity of a leaf tile or the player's resting tile.
#[derive(Clone, Copy, Debug, PartialEq, Eq, Structural)]
pub struct GridPos {
    pub x: i64,
    pub y: i64,
}

/// A directional jump command.
#[derive(Clone, Copy, Debug, PartialEq, Eq, Structural)]
pub enum PlayerAction {
    Up,
    Down,
    Left,
    Right,
}

/// The direction chosen from four held flags, by priority Up, Down, Left,
/// Right: the first held direction wins.
pub open spec fn spec_chosen_direction(
    up: bool,
    down: bool,
    left: bool,
    right: bool,
) -> Option<PlayerAction> {
    if up {
        Some(PlayerAction::Up)
    } else if down {
        Some(PlayerAction::Down)
    } else if left {
        Some(PlayerAction::Left)
    } else if right {
        Some(PlayerAction::Right)
    } else {
        None
    }
}

/// Picks the jump direction from the four held flags.
pub fn chosen_direction(up: bool, down: bool, left: bool, right: bool) -> (r: Option<PlayerAction>)
    ensures
        r == spec_chosen_direction(up, down, left, right),
{
    if up {
        Some(PlayerAction::Up)
    } else if down {
        Some(PlayerAction::Down)
    } else if left {
        Some(PlayerAction::Left)
    } else if right {
        Some(PlayerAction::Right)
    } else {
        None
    }
}

impl GridPos {
    /// Whether one more one-tile step cannot leave the representable range.
    pub open spec fn spec_in_range(self) -> bool {
        &&& i64::MIN < self.x < i64::MAX
        &&& i64::MIN < self.y < i64::MAX
    }

    /// The neighbouring tile one step in the given direction (Up is +y,
    /// Down is -y, Left is -x, Right is +x).
    pub open spec fn spec_neighbor(self, dir: PlayerAction) -> GridPos
        recommends
            self.spec_in_range(),
    {
        match dir {
            PlayerAction::Up => GridPos { x: self.x, y: (self.y + 1) as i64 },
            PlayerAction::Down => GridPos { x: self.x, y: (self.y - 1) as i64 },
            PlayerAction::Left => GridPos { x: (self.x - 1) as i64, y: self.y },
            PlayerAction::Right => GridPos { x: (self.x + 1) as i64, y: self.y },
        }
    }

    /// Moves one tile in the given direction.
    pub fn stepped(self, dir: PlayerAction) -> (r: GridPos)
        requires
            self.spec_in_range(),
        ensures
            r == self.spec_neighbor(dir),
    {
        match dir {
            PlayerAction::Up => GridPos { x: self.x, y: self.y + 1 },
            PlayerAction::Down => GridPos { x: self.x, y: self.y - 1 },
            PlayerAction::Left => GridPos { x: self.x - 1, y: self.y },
            PlayerAction::Right => GridPos { x: self.x + 1, y: self.y },
        }
    }

    /// The origin tile, the guaranteed starting leaf.
    pub fn origin() -> (r: GridPos)
        ensures
            r.x == 0 && r.y == 0,
    {
        GridPos { x: 0, y: 0 }
    }
}

} // verus!
