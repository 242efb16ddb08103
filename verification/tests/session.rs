use leafrog::grid::GridPos;
use leafrog::{GameState, GameWorld, StateStore, TickInput};

const PLAYER: u64 = 1000;
const TONGUE_BASE: u64 = 1001;
const TONGUE_TIP: u64 = 1002;

fn world() -> GameWorld {
    GameWorld::new_session(PLAYER, TONGUE_BASE, TONGUE_TIP)
}

fn quiet_tick(pairs: Vec<(u64, u64, bool)>) -> TickInput {
    TickInput {
        dt: 50,
        up: false,
        down: false,
        left: false,
        right: false,
        clicked: false,
        pointer_target: None,
        pairs,
    }
}

#[test]
fn resting_player_rots_the_origin_leaf_in_one_second() {
    let mut w = world();
    let mut drops = 0u32;
    let mut drop_tick = 0u32;
    for tick in 1..=60u32 {
        let ev = w.tick(&quiet_tick(vec![(PLAYER, 0, true)]));
        assert_eq!(ev.transition_request, None);
        if ev.leaf_dropped {
            drops += 1;
            drop_tick = tick;
            assert_eq!(ev.leaf_drops, 1);
            let pitch = ev.drop_pitch_millis.expect("a dropped leaf plays a plop");
            assert!((900..=1100).contains(&pitch));
        } else {
            assert_eq!(ev.leaf_drops, 0);
            assert!(ev.drop_pitch_millis.is_none());
        }
    }
    assert_eq!(w.leaves.leaves[0].decay, 24000);
    assert_eq!(drops, 1);
    assert_eq!(drop_tick, 60);
}

#[test]
fn up_jump_commits_to_the_tile_above_on_completion() {
    let mut w = world();
    let mut first = quiet_tick(vec![(PLAYER, 1, true)]);
    first.up = true;
    let ev = w.tick(&first);
    assert!(ev.jump_started.is_some());
    assert!(!ev.landed);
    assert!(w.player.jumping);
    assert_eq!(w.pos.0, GridPos { x: 0, y: 0 });

    let mut landed_tick = 0u32;
    for tick in 2..=30u32 {
        let ev = w.tick(&quiet_tick(vec![(PLAYER, 1, true)]));
        assert_eq!(ev.jump_started, None);
        if ev.landed {
            landed_tick = tick;
            break;
        }
        assert!(w.player.jumping);
        assert_eq!(w.pos.0, GridPos { x: 0, y: 0 });
    }
    // two 200 ms phases at sixty ticks per second land on the 24th tick
    assert_eq!(landed_tick, 24);
    assert!(!w.player.jumping);
    assert_eq!(w.pos.0, GridPos { x: 0, y: 1 });
}

#[test]
fn landing_on_open_water_requests_game_over_once() {
    let mut w = world();
    let mut first = quiet_tick(Vec::new());
    first.up = true;
    let ev = w.tick(&first);
    assert_eq!(ev.transition_request, None);

    let mut request = None;
    let mut request_count = 0u32;
    for _ in 2..=24u32 {
        let ev = w.tick(&quiet_tick(Vec::new()));
        if ev.transition_request.is_some() {
            request = ev.transition_request;
            request_count += 1;
            assert!(ev.landed);
        }
    }
    assert_eq!(request, Some(GameState::GameOver));
    assert_eq!(request_count, 1);

    // the one-shot adapter turns the request into exactly one notification
    let mut store: StateStore<GameState> = StateStore::new(GameState::InGame);
    store.request(request.unwrap());
    assert!(store.detect_and_apply().is_some());
    assert_eq!(store.current, GameState::GameOver);
    assert!(store.detect_and_apply().is_none());
}

#[test]
fn resting_on_a_fully_decayed_leaf_requests_game_over() {
    let mut w = world();
    let mut request_tick = 0u32;
    for tick in 1..=80u32 {
        let ev = w.tick(&quiet_tick(vec![(PLAYER, 0, true)]));
        if let Some(state) = ev.transition_request {
            assert_eq!(state, GameState::GameOver);
            request_tick = tick;
            break;
        }
    }
    // decay reaches its cap after 75 sixtieth-of-a-second ticks
    assert_eq!(request_tick, 75);
}

#[test]
fn resting_on_the_origin_without_overlap_is_exempt() {
    let mut w = world();
    for _ in 0..30 {
        let ev = w.tick(&quiet_tick(Vec::new()));
        assert_eq!(ev.transition_request, None);
    }
}

#[test]
fn tongue_over_an_enemy_kills_each_tick_until_retraction() {
    let mut w = world();
    let pairs = vec![(TONGUE_TIP, 99u64, true)];

    let mut first = quiet_tick(pairs.clone());
    first.clicked = true;
    first.pointer_target = Some(500);
    let ev = w.tick(&first);
    assert!(ev.extend_started);
    assert_eq!(ev.kills.len(), 1);
    assert_eq!(ev.kills[0].0, 99);
    let pitch = ev.kill_pitch_millis.expect("a kill plays a sound");
    assert!((900..=1100).contains(&pitch));

    // the 150 ms extension spans ticks two through ten
    for tick in 2..=9u32 {
        let mut input = quiet_tick(pairs.clone());
        if tick == 5 {
            // a press mid-extension must not start a second one
            input.clicked = true;
            input.pointer_target = Some(300);
        }
        let ev = w.tick(&input);
        assert!(!ev.extend_started);
        assert!(!ev.retract_started);
        assert_eq!(ev.kills.len(), 1, "kill is reported every tick the overlap persists");
        assert_eq!(ev.kills[0].0, 99);
    }

    let ev = w.tick(&quiet_tick(pairs.clone()));
    assert!(ev.retract_started);
    assert!(ev.kills.is_empty(), "retraction closes the kill window at once");
    assert!(ev.kill_pitch_millis.is_none());
    assert!(!w.tongue.extending);
    assert!(w.tongue.visible);
}

#[test]
fn press_during_retraction_is_rejected_until_idle_again() {
    let mut w = world();
    let mut first = quiet_tick(Vec::new());
    first.clicked = true;
    first.pointer_target = Some(500);
    let ev = w.tick(&first);
    assert!(ev.extend_started);

    // the 150 ms extension completes on tick ten and retraction begins;
    // from length 500 the retraction sits at its 400 ms floor
    let mut retract_tick = 0u32;
    for tick in 2..=40u32 {
        let mut input = quiet_tick(Vec::new());
        if tick >= 12 {
            // keep pressing all through the retraction
            input.clicked = true;
            input.pointer_target = Some(300);
        }
        let ev = w.tick(&input);
        if ev.retract_started {
            retract_tick = tick;
        }
        if (12..=33).contains(&tick) {
            assert!(!ev.extend_started, "a press mid-retraction must be rejected");
        }
        if tick == 34 {
            // the retraction completed on this tick: the tongue is idle
            // again and the held press finally starts a fresh extension
            assert!(ev.extend_started);
        }
    }
    assert_eq!(retract_tick, 10);
    assert!(w.tongue.extending);
    assert!(w.tongue.visible);
}

#[test]
fn press_without_pointer_changes_nothing() {
    let mut w = world();
    let mut input = quiet_tick(Vec::new());
    input.clicked = true;
    input.pointer_target = None;
    let ev = w.tick(&input);
    assert!(!ev.extend_started);
    assert!(!w.tongue.visible);
    assert!(!w.tongue.extending);
}

#[test]
fn tongue_hides_after_retraction_completes() {
    let mut w = world();
    let mut first = quiet_tick(Vec::new());
    first.clicked = true;
    first.pointer_target = Some(100);
    w.tick(&first);
    // extension floor 150 ms, retraction floor 400 ms: well under a minute
    for _ in 0..120 {
        w.tick(&quiet_tick(Vec::new()));
    }
    assert!(!w.tongue.extending);
    assert!(!w.tongue.visible);
    assert_eq!(w.tongue.length, 32);
}
