//! The field of leaves alive during one in-game session.
//!
//! A session starts from a fixed layout of thirteen tiles around the origin.
//! Every simulation tick steps each leaf once with the player's current
//! resting tile, and reports how many leaves dropped this tick — the event
//! is per crossing leaf, though at most one plop sound plays per tick.

use crate::grid::GridPos;
use crate::leaf::{Leaf, MAX_STEP_UNITS};
use vstd::prelude::*;

verus! {

/// The leaves of one in-game session.  A leaf's index in `leaves` is its
/// entity handle for the collision collaborator.
pub struct LeafField {
    pub leaves: Vec<Leaf>,
}

/// The fixed session layout: the tiles that carry a leaf when a round
/// starts.
pub open spec fn spec_initial_layout() -> Seq<GridPos> {
    seq![
        GridPos { x: 0, y: 0 },
        GridPos { x: 0, y: 1 },
        GridPos { x: 1, y: 0 },
        GridPos { x: 0, y: -1i64 },
        GridPos { x: -1i64, y: 0 },
        GridPos { x: -1i64, y: -1i64 },
        GridPos { x: 1, y: 1 },
        GridPos { x: -1i64, y: 1 },
        GridPos { x: 1, y: -1i64 },
        GridPos { x: 0, y: -2i64 },
        GridPos { x: 0, y: 2 },
        GridPos { x: 2, y: 0 },
        GridPos { x: -2i64, y: 0 },
    ]
}

/// How many of the leaves drop during one step of `dt` time units.
pub open spec fn spec_drop_count(leaves: Seq<Leaf>, player_pos: GridPos, dt: int) -> int
    decreases leaves.len(),
{
    if leaves.len() == 0 {
        0
    } else {
        spec_drop_count(leaves.drop_last(), player_pos, dt) + if leaves.last().spec_step_drops(
            player_pos,
            dt,
        ) {
            1int
        } else {
            0int
        }
    }
}

/// The drop count is never negative, and positive exactly when some leaf
/// drops.
pub proof fn lemma_drop_count_iff_any(leaves: Seq<Leaf>, player_pos: GridPos, dt: int)
    ensures
        spec_drop_count(leaves, player_pos, dt) >= 0,
        spec_drop_count(leaves, player_pos, dt) > 0 <==> exists|i: int|
            0 <= i < leaves.len() && leaves[i].spec_step_drops(player_pos, dt),
    decreases leaves.len(),
{
    if leaves.len() > 0 {
        lemma_drop_count_iff_any(leaves.drop_last(), player_pos, dt);
        if leaves.last().spec_step_drops(player_pos, dt) {
            assert(leaves[leaves.len() - 1].spec_step_drops(player_pos, dt));
        } else if spec_drop_count(leaves, player_pos, dt) > 0 {
            let i = choose|i: int|
                0 <= i < leaves.drop_last().len() && leaves.drop_last()[i].spec_step_drops(
                    player_pos,
                    dt,
                );
            assert(leaves[i].spec_step_drops(player_pos, dt));
        } else if exists|i: int|
            0 <= i < leaves.len() && leaves[i].spec_step_drops(player_pos, dt) {
            let i = choose|i: int|
                0 <= i < leaves.len() && leaves[i].spec_step_drops(player_pos, dt);
            assert(leaves.drop_last()[i].spec_step_drops(player_pos, dt));
        }
    }
}

impl LeafField {
    /// Well-formedness: every leaf is well formed and no two leaves share a
    /// tile.
    pub open spec fn inv(self) -> bool {
        &&& forall|i: int| 0 <= i < self.leaves@.len() ==> self.leaves@[i].inv()
        &&& forall|i: int, j: int|
            0 <= i < j < self.leaves@.len() ==> self.leaves@[i].pos != self.leaves@[j].pos
    }

    /// The field at the start of an in-game session: one fully safe leaf on
    /// each tile of the fixed layout.
    pub fn new_session() -> (r: LeafField)
        ensures
            r.inv(),
            r.leaves@.len() == spec_initial_layout().len(),
            forall|i: int|
                0 <= i < r.leaves@.len() ==> r.leaves@[i] == (Leaf {
                    decay: 0,
                    pos: spec_initial_layout()[i],
                    restore_elapsed: None,
                }),
    {
        let mut leaves: Vec<Leaf> = Vec::new();
        leaves.push(Leaf::new(GridPos { x: 0, y: 0 }));
        leaves.push(Leaf::new(GridPos { x: 0, y: 1 }));
        leaves.push(Leaf::new(GridPos { x: 1, y: 0 }));
        leaves.push(Leaf::new(GridPos { x: 0, y: -1 }));
        leaves.push(Leaf::new(GridPos { x: -1, y: 0 }));
        leaves.push(Leaf::new(GridPos { x: -1, y: -1 }));
        leaves.push(Leaf::new(GridPos { x: 1, y: 1 }));
        leaves.push(Leaf::new(GridPos { x: -1, y: 1 }));
        leaves.push(Leaf::new(GridPos { x: 1, y: -1 }));
        leaves.push(Leaf::new(GridPos { x: 0, y: -2 }));
        leaves.push(Leaf::new(GridPos { x: 0, y: 2 }));
        leaves.push(Leaf::new(GridPos { x: 2, y: 0 }));
        leaves.push(Leaf::new(GridPos { x: -2, y: 0 }));
        let r = LeafField { leaves };
        proof {
            assert(r.leaves@ =~= Seq::new(13, |i: int| Leaf {
                decay: 0,
                pos: spec_initial_layout()[i],
                restore_elapsed: None,
            }));
        }
        r
    }

    /// Advances every leaf by `dt` time units, and reports how many leaves
    /// dropped this step — one per crossing leaf.
    pub fn step_all(&mut self, player_pos: GridPos, dt: u64) -> (dropped: usize)
        requires
            old(self).inv(),
            dt <= MAX_STEP_UNITS,
        ensures
            final(self).inv(),
            final(self).leaves@.len() == old(self).leaves@.len(),
            forall|i: int|
                0 <= i < old(self).leaves@.len() ==> final(self).leaves@[i] == old(
                    self,
                ).leaves@[i].spec_stepped(player_pos, dt as int),
            dropped as int == spec_drop_count(old(self).leaves@, player_pos, dt as int),
            dropped > 0 <==> exists|i: int|
                0 <= i < old(self).leaves@.len() && old(self).leaves@[i].spec_step_drops(
                    player_pos,
                    dt as int,
                ),
    {
        let mut dropped: usize = 0;
        let n = self.leaves.len();
        let mut k: usize = 0;
        while k < n
            invariant
                n == old(self).leaves@.len(),
                k <= n,
                dropped <= k,
                dt <= MAX_STEP_UNITS,
                self.leaves@.len() == n,
                forall|i: int| 0 <= i < old(self).leaves@.len() ==> old(self).leaves@[i].inv(),
                forall|i: int| k <= i < n ==> self.leaves@[i] == old(self).leaves@[i],
                forall|i: int|
                    0 <= i < k ==> self.leaves@[i] == old(self).leaves@[i].spec_stepped(
                        player_pos,
                        dt as int,
                    ),
                dropped as int == spec_drop_count(
                    old(self).leaves@.take(k as int),
                    player_pos,
                    dt as int,
                ),
            decreases n - k,
        {
            let mut leaf = self.leaves[k];
            let dropped_here = leaf.step(player_pos, dt);
            self.leaves.set(k, leaf);
            if dropped_here {
                dropped = dropped + 1;
            }
            proof {
                assert(old(self).leaves@.take(k + 1).drop_last() =~= old(self).leaves@.take(
                    k as int,
                ));
                assert(old(self).leaves@.take(k + 1).last() == old(self).leaves@[k as int]);
            }
            k = k + 1;
        }
        proof {
            assert(old(self).leaves@.take(n as int) =~= old(self).leaves@);
            lemma_drop_count_iff_any(old(self).leaves@, player_pos, dt as int);
            assert forall|i: int, j: int|
                0 <= i < j < self.leaves@.len() implies self.leaves@[i].pos
                != self.leaves@[j].pos by {
                assert(self.leaves@[i].pos == old(self).leaves@[i].pos);
                assert(self.leaves@[j].pos == old(self).leaves@[j].pos);
            }
        }
        dropped
    }

    /// The number of leaves in the field.
    pub fn len(&self) -> (r: usize)
        ensures
            r == self.leaves@.len(),
    {
        self.leaves.len()
    }

    /// The leaf behind the given entity handle.
    pub fn get(&self, i: usize) -> (r: &Leaf)
        requires
            i < self.leaves@.len(),
        ensures
            *r == self.leaves@[i as int],
    {
        &self.leaves[i]
    }
}

} // verus!
