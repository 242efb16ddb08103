//! Adapter over the collision collaborator's report.
//!
//! The physics collaborator reports, once per tick, which pairs of entities
//! currently overlap.  The simulation only ever asks one question of it:
//! which entities overlap a given one.

use vstd::prelude::*;

verus! {

/// The entities that overlap `entity` according to the reported pairs, in
/// report order: from every intersecting pair that involves `entity`, the
/// other member.
pub open spec fn spec_intersections(pairs: Seq<(u64, u64, bool)>, entity: u64) -> Seq<u64>
    decreases pairs.len(),
{
    if pairs.len() == 0 {
        Seq::empty()
    } else {
        let rest = spec_intersections(pairs.drop_last(), entity);
        let p = pairs.last();
        if p.2 && (p.0 == entity || p.1 == entity) {
            rest.push(
                if p.0 == entity {
                    p.1
                } else {
                    p.0
                },
            )
        } else {
            rest
        }
    }
}

/// Collects the entities overlapping `entity` from the collision
/// collaborator's pair report.  Each pair is `(first, second,
/// intersecting)`.
pub fn get_intersections(pairs: &Vec<(u64, u64, bool)>, entity: u64) -> (r: Vec<u64>)
    ensures
        r@ == spec_intersections(pairs@, entity),
{
    let mut r: Vec<u64> = Vec::new();
    let n = pairs.len();
    let mut i: usize = 0;
    while i < n
        invariant
            i <= n,
            n == pairs@.len(),
            r@ == spec_intersections(pairs@.take(i as int), entity),
        decreases n - i,
    {
        let p = pairs[i];
        if p.2 && (p.0 == entity || p.1 == entity) {
            if p.0 == entity {
                r.push(p.1);
            } else {
                r.push(p.0);
            }
        }
        proof {
            assert(pairs@.take(i + 1).drop_last() =~= pairs@.take(i as int));
            assert(pairs@.take(i + 1).last() == pairs@[i as int]);
        }
        i = i + 1;
    }
    proof {
        assert(pairs@.take(n as int) =~= pairs@);
    }
    r
}

} // verus!
