//! Enemy placement decisions.
//!
//! Enemies are recycled, not destroyed: a killed enemy is repositioned to a
//! fresh random spot on the game's bounding ring, facing a fresh random
//! way.  The draws happen here; turning an angle into world coordinates is
//! the rendering side's trigonometry.

use crate::random::{random_angle_millirad, FULL_TURN_MILLIRAD};
use vstd::prelude::*;

verus! {

/// Radius of the bounding ring enemies respawn on, in world units.
pub const ENEMY_RING_RADIUS: u64 = 600;

/// How many enemies a session starts with.
pub const INITIAL_ENEMY_COUNT: usize = 20;

/// An enemy's forward speed, in world units per second; applied by the
/// movement collaborator along the enemy's facing.
pub const ENEMY_SPEED: u64 = 300;

/// "This enemy was killed this tick", carrying the enemy's entity handle.
#[derive(Clone, Copy, Debug, PartialEq, Eq, Structural)]
pub struct EnemyKillEvent(pub u64);

/// Where a recycled or fresh enemy goes: its spot on the bounding ring and
/// its facing, both as angles in milliradians.
#[derive(Clone, Copy, Debug, PartialEq, Eq, Structural)]
pub struct RespawnOrder {
    pub entity: u64,
    pub ring_angle_millirad: u64,
    pub facing_millirad: u64,
}

impl RespawnOrder {
    /// Well-formedness: both angles lie within one turn.
    pub open spec fn inv(self) -> bool {
        &&& self.ring_angle_millirad < FULL_TURN_MILLIRAD
        &&& self.facing_millirad < FULL_TURN_MILLIRAD
    }
}

/// Draws a fresh random placement for one enemy.
pub fn random_respawn(entity: u64) -> (r: RespawnOrder)
    ensures
        r.entity == entity,
        r.inv(),
{
    RespawnOrder {
        entity,
        ring_angle_millirad: random_angle_millirad(),
        facing_millirad: random_angle_millirad(),
    }
}

/// Turns this tick's kill events into reposition orders: one per killed
/// enemy, in event order, each with fresh random angles.
pub fn respawn_orders(kills: &Vec<EnemyKillEvent>) -> (orders: Vec<RespawnOrder>)
    ensures
        orders@.len() == kills@.len(),
        forall|i: int| 0 <= i < orders@.len() ==> orders@[i].entity == kills@[i].0,
        forall|i: int| 0 <= i < orders@.len() ==> orders@[i].inv(),
{
    let mut orders: Vec<RespawnOrder> = Vec::new();
    let n = kills.len();
    let mut i: usize = 0;
    while i < n
        invariant
            i <= n,
            n == kills@.len(),
            orders@.len() == i,
            forall|j: int| 0 <= j < i ==> orders@[j].entity == kills@[j].0,
            forall|j: int| 0 <= j < i ==> orders@[j].inv(),
        decreases n - i,
    {
        let order = random_respawn(kills[i].0);
        orders.push(order);
        i = i + 1;
    }
    orders
}

/// Draws the placements a session's initial swarm spawns with; the entity
/// handles are assigned by the spawning side.
pub fn initial_spawn_orders(first_entity: u64) -> (orders: Vec<RespawnOrder>)
    requires
        first_entity + INITIAL_ENEMY_COUNT <= u64::MAX,
    ensures
        orders@.len() == INITIAL_ENEMY_COUNT,
        forall|i: int| 0 <= i < orders@.len() ==> orders@[i].entity == first_entity + i,
        forall|i: int| 0 <= i < orders@.len() ==> orders@[i].inv(),
{
    let mut orders: Vec<RespawnOrder> = Vec::new();
    let mut i: usize = 0;
    while i < INITIAL_ENEMY_COUNT
        invariant
            i <= INITIAL_ENEMY_COUNT,
            first_entity + INITIAL_ENEMY_COUNT <= u64::MAX,
            orders@.len() == i,
            forall|j: int| 0 <= j < i ==> orders@[j].entity == first_entity + j,
            forall|j: int| 0 <= j < i ==> orders@[j].inv(),
        decreases INITIAL_ENEMY_COUNT - i,
    {
        let order = random_respawn(first_entity + i as u64);
        orders.push(order);
        i = i + 1;
    }
    orders
}

} // verus!
