use bevy_turborand::GlobalRng;
use wavecore::enemies::{ideal_enemy_count, max_enemies, EnemyState};
use wavecore::session::GameSession;

#[test]
fn cap_is_ten_enemies_per_stage() {
    assert_eq!(max_enemies(1), 10);
    assert_eq!(max_enemies(2), 20);
    assert_eq!(max_enemies(5), 50);
}

#[test]
fn ideal_count_ramps_over_thirty_seconds() {
    assert_eq!(ideal_enemy_count(1, 0), 0);
    assert_eq!(ideal_enemy_count(1, 999), 0);
    assert_eq!(ideal_enemy_count(1, 1000), 1);
    assert_eq!(ideal_enemy_count(1, 2999), 1);
    assert_eq!(ideal_enemy_count(1, 4000), 2);
    assert_eq!(ideal_enemy_count(1, 15000), 5);
    assert_eq!(ideal_enemy_count(1, 30000), 10);
    assert_eq!(ideal_enemy_count(2, 30000), 20);
}

#[test]
fn ideal_count_is_not_clamped_at_the_cap() {
    // after the ramp window the soft target keeps growing; only the hard
    // cap limits the live population
    assert_eq!(ideal_enemy_count(1, 45000), 15);
    assert_eq!(ideal_enemy_count(1, 60000), 20);
}

#[test]
fn ideal_count_spot_checks_monotone() {
    let mut last: u128 = 0;
    for t in [0u64, 500, 1000, 2500, 7000, 29999, 30000, 31000, 90000] {
        let c = ideal_enemy_count(3, t);
        assert!(c >= last);
        last = c;
    }
}

#[test]
fn spawner_created_once_at_stage_one() {
    let mut s = GameSession::new();
    s.ensure_spawner(42);
    let sp = s.spawner.unwrap();
    assert_eq!(sp.stage, 1);
    assert_eq!(sp.score, 0);
    assert!(!sp.started);
    assert_eq!(sp.start_time, 42);
    // a second entry leaves the existing spawner alone
    s.ensure_spawner(99);
    assert_eq!(s.spawner.unwrap().start_time, 42);
}

#[test]
fn stage_clock_starts_strictly_after_start_time() {
    let mut s = GameSession::new();
    s.ensure_spawner(100);
    s.advance_clock(100);
    assert!(!s.spawner.unwrap().started);
    s.advance_clock(101);
    assert!(s.spawner.unwrap().started);
}

#[test]
fn no_spawn_before_the_stage_starts() {
    let mut rng = GlobalRng::with_seed(11);
    let mut s = GameSession::new();
    s.ensure_spawner(0);
    s.maybe_spawn_enemy(50_000, &mut rng);
    assert_eq!(s.enemies.len(), 0);
}

#[test]
fn spawns_one_per_tick_up_to_the_hard_cap() {
    let mut rng = GlobalRng::with_seed(7);
    let mut s = GameSession::new();
    s.ensure_spawner(0);
    s.advance_clock(1);
    // 40 s in, the ramp asks for more than the cap allows
    for tick in 0..15 {
        s.maybe_spawn_enemy(40_000, &mut rng);
        let expected = if tick < 10 { tick + 1 } else { 10 };
        assert_eq!(s.enemies.len(), expected);
    }
    assert_eq!(s.enemies.len(), 10);
}

#[test]
fn spawned_enemies_start_fresh_and_inside_the_arena() {
    let mut rng = GlobalRng::with_seed(3);
    let mut s = GameSession::new();
    s.ensure_spawner(0);
    s.advance_clock(1);
    for _ in 0..10 {
        s.maybe_spawn_enemy(40_000, &mut rng);
    }
    assert_eq!(s.enemies.len(), 10);
    for e in s.enemies.iter() {
        assert_eq!(e.health, 100);
        assert!(matches!(e.state, EnemyState::Zombie));
        assert!((-390..=390).contains(&e.x));
        assert!((-290..=290).contains(&e.y));
    }
}

#[test]
fn spawn_respects_the_ramp_early_in_a_stage() {
    let mut rng = GlobalRng::with_seed(5);
    let mut s = GameSession::new();
    s.ensure_spawner(0);
    s.advance_clock(1);
    // 4 s in, the ideal count is 2: two spawns happen, the third tick skips
    s.maybe_spawn_enemy(4_000, &mut rng);
    s.maybe_spawn_enemy(4_000, &mut rng);
    s.maybe_spawn_enemy(4_000, &mut rng);
    assert_eq!(s.enemies.len(), 2);
}

#[test]
fn stage_end_fires_only_when_every_enemy_is_destroyed() {
    let mut rng = GlobalRng::with_seed(9);
    let mut s = GameSession::new();
    s.ensure_spawner(0);
    s.advance_clock(1);
    for _ in 0..10 {
        s.maybe_spawn_enemy(40_000, &mut rng);
    }
    for e in s.enemies.iter_mut().take(9) {
        e.state = EnemyState::Destroyed;
    }
    s.check_stage_end(41_000);
    // nine corpses out of ten: the stage keeps running
    assert_eq!(s.spawner.unwrap().stage, 1);
    assert_eq!(s.enemies.len(), 10);
}

#[test]
fn cleared_stage_advances_and_gates_the_next_ramp() {
    let mut rng = GlobalRng::with_seed(13);
    let mut s = GameSession::new();
    s.ensure_spawner(0);
    s.advance_clock(1);
    for _ in 0..10 {
        s.maybe_spawn_enemy(40_000, &mut rng);
    }
    for e in s.enemies.iter_mut() {
        e.state = EnemyState::Destroyed;
    }
    s.check_stage_end(50_000);

    let sp = s.spawner.unwrap();
    assert_eq!(sp.stage, 2);
    assert!(!sp.started);
    assert_eq!(sp.start_time, 53_000);
    assert_eq!(s.enemies.len(), 0);

    // during the three-second pause nothing starts and nothing spawns
    for t in [50_000u64, 51_500, 52_999, 53_000] {
        s.advance_clock(t);
        assert!(!s.spawner.unwrap().started);
        s.maybe_spawn_enemy(t, &mut rng);
        assert_eq!(s.enemies.len(), 0);
    }

    // strictly past the pause the next ramp begins
    s.advance_clock(53_001);
    assert!(s.spawner.unwrap().started);
    s.maybe_spawn_enemy(54_001, &mut rng);
    assert_eq!(s.enemies.len(), 1);
}

#[test]
fn stage_end_keeps_the_score() {
    let mut rng = GlobalRng::with_seed(17);
    let mut s = GameSession::new();
    s.ensure_spawner(0);
    s.advance_clock(1);
    for _ in 0..10 {
        s.maybe_spawn_enemy(40_000, &mut rng);
    }
    for e in s.enemies.iter_mut() {
        e.state = EnemyState::Destroyed;
    }
    if let Some(sp) = s.spawner.as_mut() {
        sp.score = 500;
    }
    s.check_stage_end(41_000);
    assert_eq!(s.spawner.unwrap().stage, 2);
    assert_eq!(s.spawner.unwrap().score, 500);
}
