use leafrog::grid::GridPos;
use leafrog::leaf::{rotation_hash, Leaf, DECAY_FULL};
use leafrog::LeafField;

fn origin() -> GridPos {
    GridPos { x: 0, y: 0 }
}

fn fresh_leaf_at_origin() -> Leaf {
    Leaf { decay: 0, pos: origin(), restore_elapsed: None }
}

#[test]
fn decay_rises_under_player() {
    let mut leaf = fresh_leaf_at_origin();
    let dropped = leaf.step(origin(), 50);
    assert_eq!(leaf.decay, 400);
    assert!(!dropped);
}

#[test]
fn decay_falls_when_unweighted() {
    let mut leaf = Leaf { decay: 150, pos: origin(), restore_elapsed: None };
    let away = GridPos { x: 3, y: 3 };
    leaf.step(away, 40);
    assert_eq!(leaf.decay, 30);
    leaf.step(away, 40);
    assert_eq!(leaf.decay, 0);
    leaf.step(away, 40);
    assert_eq!(leaf.decay, 0);
}

#[test]
fn decay_sticky_above_threshold() {
    let away = GridPos { x: 3, y: 3 };
    let mut leaf = Leaf { decay: 21050, pos: origin(), restore_elapsed: None };
    leaf.step(away, 50);
    assert_eq!(leaf.decay, 21450);
}

#[test]
fn decay_not_sticky_at_threshold() {
    let away = GridPos { x: 3, y: 3 };
    let mut leaf = Leaf { decay: 21000, pos: origin(), restore_elapsed: None };
    leaf.step(away, 50);
    assert_eq!(leaf.decay, 20850);
}

#[test]
fn drop_fires_once_per_upward_crossing() {
    let mut leaf = Leaf { decay: 23600, pos: origin(), restore_elapsed: None };
    let below = leaf.step(origin(), 50);
    assert!(below);
    assert_eq!(leaf.decay, 24000);
    let above = leaf.step(origin(), 50);
    assert!(!above);
    assert_eq!(leaf.decay, 24400);
}

#[test]
fn drop_never_fires_on_downward_crossing() {
    // a fully decayed leaf fades back through the threshold while restoring
    let mut leaf = Leaf { decay: DECAY_FULL, pos: origin(), restore_elapsed: Some(0) };
    let mut elapsed: u64 = 0;
    while elapsed < 15000 {
        let dropped = leaf.step(origin(), 50);
        assert!(!dropped);
        elapsed += 50;
    }
    assert_eq!(leaf.decay, 0);
    assert!(leaf.restore_elapsed.is_none());
}

#[test]
fn decay_stays_in_range_and_pins_at_full() {
    let mut leaf = fresh_leaf_at_origin();
    for step in 1..=80u32 {
        leaf.step(origin(), 50);
        assert!(leaf.decay <= DECAY_FULL);
        if step >= 75 {
            // 75 steps of 50 units at 8 per unit reach exactly 30000
            if leaf.restore_elapsed.is_some() {
                break;
            }
        }
    }
    assert!(leaf.restore_elapsed.is_some());
}

#[test]
fn decay_pinned_until_final_tenth_then_resets_to_zero() {
    let mut leaf = Leaf { decay: DECAY_FULL, pos: origin(), restore_elapsed: Some(0) };
    let away = GridPos { x: 9, y: 9 };
    let mut elapsed: u64 = 0;
    while elapsed + 50 <= 13500 {
        leaf.step(away, 50);
        elapsed += 50;
        assert_eq!(leaf.decay, DECAY_FULL);
    }
    while elapsed < 15000 {
        leaf.step(away, 50);
        elapsed += 50;
        if elapsed < 15000 {
            assert!(leaf.decay < DECAY_FULL);
            assert!(leaf.restore_elapsed.is_some());
        }
    }
    assert_eq!(leaf.decay, 0);
    assert!(leaf.restore_elapsed.is_none());
}

#[test]
fn restore_fade_value_exact() {
    let mut leaf = Leaf { decay: DECAY_FULL, pos: origin(), restore_elapsed: Some(13480) };
    leaf.step(origin(), 40);
    // 13520 units in: 300000 - 20 * 13520
    assert_eq!(leaf.decay, 29600);
}

#[test]
fn one_second_under_player_reaches_drop_threshold() {
    // dt of one sixtieth of a second, sixty times
    let mut leaf = fresh_leaf_at_origin();
    let mut drops = 0u32;
    let mut drop_step = 0u32;
    for step in 1..=60u32 {
        if leaf.step(origin(), 50) {
            drops += 1;
            drop_step = step;
        }
    }
    assert_eq!(leaf.decay, 24000);
    assert_eq!(drops, 1);
    assert_eq!(drop_step, 60);
}

#[test]
fn one_huge_step_clamps_at_full_and_starts_the_cooldown() {
    let mut leaf = fresh_leaf_at_origin();
    let dropped = leaf.step(origin(), leafrog::leaf::MAX_STEP_UNITS);
    assert!(dropped);
    assert_eq!(leaf.decay, DECAY_FULL);
    assert_eq!(leaf.restore_elapsed, Some(0));
}

#[test]
fn rotation_hash_exact_values() {
    assert_eq!(rotation_hash(0), 723471715);
    assert_eq!(rotation_hash(1), 723217730);
    assert_eq!(rotation_hash(42), 733087819);
}

#[test]
fn session_layout_has_thirteen_leaves() {
    let field = LeafField::new_session();
    assert_eq!(field.len(), 13);
    assert_eq!(field.get(0).pos, GridPos { x: 0, y: 0 });
    assert_eq!(field.get(10).pos, GridPos { x: 0, y: 2 });
    for i in 0..13 {
        assert_eq!(field.get(i).decay, 0);
        assert!(field.get(i).restore_elapsed.is_none());
    }
}

#[test]
fn step_all_weights_only_the_players_leaf() {
    let mut field = LeafField::new_session();
    let dropped = field.step_all(origin(), 50);
    assert_eq!(dropped, 0);
    assert_eq!(field.get(0).decay, 400);
    for i in 1..13 {
        assert_eq!(field.get(i).decay, 0);
    }
}

#[test]
fn step_all_counts_one_drop_per_crossing_leaf() {
    // two sticky leaves cross the threshold in the same step; a third is
    // already past it and must not count again
    let far = GridPos { x: 9, y: 9 };
    let mut field = LeafField {
        leaves: vec![
            Leaf { decay: 23800, pos: GridPos { x: 0, y: 0 }, restore_elapsed: None },
            Leaf { decay: 100, pos: GridPos { x: 1, y: 0 }, restore_elapsed: None },
            Leaf { decay: 23900, pos: GridPos { x: 0, y: 1 }, restore_elapsed: None },
            Leaf { decay: 24400, pos: GridPos { x: 1, y: 1 }, restore_elapsed: None },
        ],
    };
    let dropped = field.step_all(far, 50);
    assert_eq!(dropped, 2);
    assert_eq!(field.get(0).decay, 24200);
    assert_eq!(field.get(1).decay, 0);
    assert_eq!(field.get(2).decay, 24300);
    assert_eq!(field.get(3).decay, 24800);
    let again = field.step_all(far, 50);
    assert_eq!(again, 0);
}
