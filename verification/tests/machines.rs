use leafrog::collision::get_intersections;
use leafrog::enemy::{initial_spawn_orders, respawn_orders, EnemyKillEvent};
use leafrog::grid::{chosen_direction, GridPos, PlayerAction};
use leafrog::player::{jump_player_segments, SIGNAL_JUMP_DONE};
use leafrog::random::{random_angle_millirad, random_pitch_millis, FULL_TURN_MILLIRAD};
use leafrog::screens::{title_control, GameOverState, GAMEOVER_COOLDOWN_UNITS};
use leafrog::tongue::{SIGNAL_EXTEND_DONE, SIGNAL_RETRACT_DONE, TONGUE_LEN_DEFAULT};
use leafrog::{
    GameState, Player, PlayerPos, Segment, StateStore, StateTransitionEvent, Timeline, Tongue,
};

#[test]
fn direction_priority_up_down_left_right() {
    assert_eq!(chosen_direction(true, true, true, true), Some(PlayerAction::Up));
    assert_eq!(chosen_direction(false, true, true, true), Some(PlayerAction::Down));
    assert_eq!(chosen_direction(false, false, true, true), Some(PlayerAction::Left));
    assert_eq!(chosen_direction(false, false, false, true), Some(PlayerAction::Right));
    assert_eq!(chosen_direction(false, false, false, false), None);
}

#[test]
fn jump_accepted_records_target_and_commits_on_completion() {
    let mut player = Player::default();
    let mut pos = PlayerPos::default();
    let accepted = player.try_start_jump(true, false, false, false);
    assert_eq!(accepted, Some(PlayerAction::Up));
    assert!(player.jumping);
    assert_eq!(player.next_pos, GridPos { x: 0, y: 1 });
    assert_eq!(pos.0, GridPos { x: 0, y: 0 });
    player.land(&mut pos);
    assert!(!player.jumping);
    assert_eq!(pos.0, GridPos { x: 0, y: 1 });
}

#[test]
fn jump_request_ignored_while_jumping() {
    let mut player = Player::default();
    player.try_start_jump(false, false, false, true);
    let before = player;
    let second = player.try_start_jump(true, false, false, false);
    assert_eq!(second, None);
    assert_eq!(player, before);
}

#[test]
fn timeline_interpolates_linearly() {
    let mut t = Timeline::at_rest(0);
    t.start(vec![Segment { start_value: 0, end_value: 1000, duration: 100, signal: Some(7) }]);
    let s = t.advance(37);
    assert!(s.is_empty());
    assert_eq!(t.current_value(), 370);
}

#[test]
fn timeline_signal_fires_exactly_once() {
    let mut t = Timeline::at_rest(0);
    t.start(vec![Segment { start_value: 0, end_value: 1000, duration: 100, signal: Some(7) }]);
    let s1 = t.advance(99);
    assert!(s1.is_empty());
    let s2 = t.advance(1);
    assert_eq!(s2, vec![7]);
    assert_eq!(t.current_value(), 1000);
    let s3 = t.advance(500);
    assert!(s3.is_empty());
    assert_eq!(t.current_value(), 1000);
}

#[test]
fn jump_animation_signals_only_after_both_phases() {
    let mut t = Timeline::at_rest(1000);
    t.start(jump_player_segments());
    let s1 = t.advance(600);
    assert!(s1.is_empty());
    let s2 = t.advance(599);
    assert!(s2.is_empty());
    let s3 = t.advance(1);
    assert_eq!(s3, vec![SIGNAL_JUMP_DONE]);
}

#[test]
fn one_huge_advance_finishes_every_segment_in_order() {
    let mut t = Timeline::at_rest(5);
    t.start(vec![
        Segment { start_value: 5, end_value: 10, duration: 30, signal: Some(3) },
        Segment { start_value: 10, end_value: 20, duration: 30, signal: None },
        Segment { start_value: 20, end_value: 7, duration: 30, signal: Some(4) },
    ]);
    let signals = t.advance(1000);
    assert_eq!(signals, vec![3, 4]);
    assert_eq!(t.current_value(), 7);
    assert!(t.segments.is_empty());
}

#[test]
fn tongue_extension_starts_once_and_is_rejected_while_extending() {
    let mut tongue = Tongue::new(11, 12);
    let mut anim = Timeline::at_rest(TONGUE_LEN_DEFAULT);
    let started = tongue.try_extend(&mut anim, true, false, Some(500));
    assert!(started);
    assert!(tongue.extending);
    assert!(tongue.visible);
    assert_eq!(anim.segments[0].start_value, 32);
    assert_eq!(anim.segments[0].end_value, 500);
    // a quarter millisecond per unit is under the floor of 150 ms here
    assert_eq!(anim.segments[0].duration, 450);
    assert_eq!(anim.segments[0].signal, Some(SIGNAL_EXTEND_DONE));

    let again = tongue.try_extend(&mut anim, true, false, Some(300));
    assert!(!again);
    assert!(tongue.extending);
}

#[test]
fn tongue_extension_rejected_while_player_jumps() {
    let mut tongue = Tongue::new(11, 12);
    let mut anim = Timeline::at_rest(TONGUE_LEN_DEFAULT);
    let started = tongue.try_extend(&mut anim, true, true, Some(500));
    assert!(!started);
    assert!(!tongue.visible);
}

#[test]
fn tongue_press_without_pointer_is_skipped_entirely() {
    // absent pointer context skips the action as normal control flow
    let mut tongue = Tongue::new(11, 12);
    let before = tongue;
    let mut anim = Timeline::at_rest(TONGUE_LEN_DEFAULT);
    let started = tongue.try_extend(&mut anim, true, false, None);
    assert!(!started);
    assert_eq!(tongue, before);
    assert!(!tongue.visible);
    assert!(anim.segments.is_empty());
}

#[test]
fn tongue_press_during_retraction_is_rejected_until_idle() {
    let mut tongue = Tongue::new(11, 12);
    let mut anim = Timeline::at_rest(TONGUE_LEN_DEFAULT);
    tongue.try_extend(&mut anim, true, false, Some(500));
    anim.advance(450);
    tongue.length = 500;
    tongue.on_signal(&mut anim, SIGNAL_EXTEND_DONE);
    assert!(!tongue.extending);

    // the retract animation is still in flight: the press must be rejected
    let before = tongue;
    let started = tongue.try_extend(&mut anim, true, false, Some(300));
    assert!(!started);
    assert_eq!(tongue, before);

    // once the retraction completes and the tongue is idle, a press works
    anim.advance(1200);
    tongue.on_signal(&mut anim, SIGNAL_RETRACT_DONE);
    assert!(!tongue.visible);
    let started = tongue.try_extend(&mut anim, true, false, Some(300));
    assert!(started);
    assert!(tongue.extending);
    assert!(tongue.visible);
}

#[test]
fn tongue_retracts_on_extend_completion_and_hides_on_retract_completion() {
    let mut tongue = Tongue::new(11, 12);
    let mut anim = Timeline::at_rest(TONGUE_LEN_DEFAULT);
    tongue.try_extend(&mut anim, true, false, Some(800));
    tongue.length = 800;
    let retracting = tongue.on_signal(&mut anim, SIGNAL_EXTEND_DONE);
    assert!(retracting);
    assert!(!tongue.extending);
    assert!(tongue.visible);
    assert_eq!(anim.segments[0].start_value, 800);
    assert_eq!(anim.segments[0].end_value, 32);
    // half a millisecond per unit meets the floor of 400 ms exactly here
    assert_eq!(anim.segments[0].duration, 1200);
    assert_eq!(anim.segments[0].signal, Some(SIGNAL_RETRACT_DONE));

    let retracting_again = tongue.on_signal(&mut anim, SIGNAL_RETRACT_DONE);
    assert!(!retracting_again);
    assert!(!tongue.visible);
}

#[test]
fn tongue_kill_window_requires_extending_and_visible() {
    let mut tongue = Tongue::new(11, 12);
    let pairs = vec![(12u64, 99u64, true), (7u64, 8u64, true), (12u64, 55u64, false)];
    assert!(tongue.kill_check(&pairs).is_empty());
    tongue.extending = true;
    assert!(tongue.kill_check(&pairs).is_empty());
    tongue.visible = true;
    assert_eq!(tongue.kill_check(&pairs), vec![99]);
}

#[test]
fn intersections_pick_the_other_member_of_each_true_pair() {
    let pairs = vec![
        (1u64, 2u64, true),
        (2u64, 3u64, true),
        (4u64, 5u64, false),
        (4u64, 5u64, true),
        (2u64, 6u64, false),
    ];
    assert_eq!(get_intersections(&pairs, 2), vec![1, 3]);
    assert_eq!(get_intersections(&pairs, 5), vec![4]);
    assert_eq!(get_intersections(&pairs, 9), Vec::<u64>::new());
}

#[test]
fn state_store_notifies_exactly_once_per_request() {
    let mut store: StateStore<GameState> = StateStore::new(GameState::Title);
    assert!(store.detect_and_apply().is_none());
    store.request(GameState::InGame);
    let fired = store.detect_and_apply();
    assert!(fired.is_some());
    assert_eq!(store.current, GameState::InGame);
    assert!(store.pending.is_none());
    assert!(store.detect_and_apply().is_none());
    assert_eq!(store.current, GameState::InGame);
}

#[test]
fn transition_event_is_parameterless() {
    // the notification carries no payload; consumers re-read the state
    let event: StateTransitionEvent<GameState> = StateTransitionEvent::default();
    let _ = event;
}

#[test]
fn gameover_cooldown_blocks_then_releases_to_title() {
    let mut screen = GameOverState::enter();
    assert_eq!(screen.cooldown_remaining, GAMEOVER_COOLDOWN_UNITS);
    assert_eq!(screen.control(2000, false, true), None);
    assert_eq!(screen.cooldown_remaining, 400);
    assert_eq!(screen.control(399, false, true), None);
    assert_eq!(screen.control(1, true, true), None);
    assert_eq!(screen.control(1, false, false), None);
    assert_eq!(screen.control(1, false, true), Some(GameState::Title));
}

#[test]
fn title_release_starts_the_game() {
    assert_eq!(title_control(false, true), Some(GameState::InGame));
    assert_eq!(title_control(true, true), None);
    assert_eq!(title_control(false, false), None);
}

#[test]
fn pitch_draws_stay_in_range() {
    for _ in 0..200 {
        let p = random_pitch_millis();
        assert!((900..=1100).contains(&p));
    }
}

#[test]
fn angle_draws_stay_below_one_turn() {
    for _ in 0..200 {
        assert!(random_angle_millirad() < FULL_TURN_MILLIRAD);
    }
}

#[test]
fn respawn_orders_follow_the_kill_events() {
    let kills = vec![EnemyKillEvent(5), EnemyKillEvent(7), EnemyKillEvent(5)];
    let orders = respawn_orders(&kills);
    assert_eq!(orders.len(), 3);
    assert_eq!(orders[0].entity, 5);
    assert_eq!(orders[1].entity, 7);
    assert_eq!(orders[2].entity, 5);
    for o in &orders {
        assert!(o.ring_angle_millirad < FULL_TURN_MILLIRAD);
        assert!(o.facing_millirad < FULL_TURN_MILLIRAD);
    }
}

#[test]
fn initial_swarm_spawns_twenty() {
    let orders = initial_spawn_orders(100);
    assert_eq!(orders.len(), 20);
    assert_eq!(orders[0].entity, 100);
    assert_eq!(orders[19].entity, 119);
    for o in &orders {
        assert!(o.ring_angle_millirad < FULL_TURN_MILLIRAD);
    }
}
