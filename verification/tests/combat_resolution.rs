use wavecore::enemies::{Enemy, EnemyState};
use wavecore::player::Bullet;
use wavecore::session::GameSession;
use wavecore::states::{AppState, StateMachine};

/// A session with the player (body 0), one pursuing enemy (body 1) and one
/// projectile (body 2), built the way the engine glue would.
fn arena() -> GameSession {
    let mut s = GameSession::new();
    s.ensure_player();
    s.ensure_spawner(0);
    s.enemies.push(Enemy { body: 1, health: 100, state: EnemyState::Zombie, x: 0, y: 0 });
    s.bullets.push(Bullet { body: 2, collided: false });
    s.next_body = 3;
    s
}

#[test]
fn enemy_contact_costs_the_player_ten_health() {
    let mut s = arena();
    let cues = s.resolve_collision(0, 1);
    assert!(cues.bite);
    assert!(!cues.hit);
    assert_eq!(s.player.unwrap().health, 90);
    // order of the pair does not matter
    let cues = s.resolve_collision(1, 0);
    assert!(cues.bite);
    assert_eq!(s.player.unwrap().health, 80);
}

#[test]
fn three_contacts_reduce_health_to_seventy() {
    let mut s = arena();
    for _ in 0..3 {
        s.resolve_collision(0, 1);
    }
    assert_eq!(s.player.unwrap().health, 70);
}

#[test]
fn projectile_hit_costs_the_enemy_fifty_health() {
    let mut s = arena();
    let cues = s.resolve_collision(2, 1);
    assert!(cues.hit);
    assert!(!cues.bite);
    assert_eq!(s.enemies[0].health, 50);
    // the projectile is marked by the same notification
    assert!(s.bullets[0].collided);
}

#[test]
fn unrelated_pairs_deal_no_damage() {
    let mut s = arena();
    // a wall (an identifier in no live set) against the player and the enemy
    let cues = s.resolve_collision(0, 999);
    assert!(!cues.bite && !cues.hit);
    let cues = s.resolve_collision(1, 999);
    assert!(!cues.bite && !cues.hit);
    assert_eq!(s.player.unwrap().health, 100);
    assert_eq!(s.enemies[0].health, 100);
    assert!(!s.bullets[0].collided);
}

#[test]
fn projectile_is_marked_whatever_it_touches() {
    // against a wall
    let mut s = arena();
    s.resolve_collision(2, 999);
    assert!(s.bullets[0].collided);
    // against the player
    let mut s = arena();
    s.resolve_collision(0, 2);
    assert!(s.bullets[0].collided);
    assert_eq!(s.player.unwrap().health, 100);
    // against another projectile: both sides are marked
    let mut s = arena();
    s.bullets.push(Bullet { body: 3, collided: false });
    s.next_body = 4;
    s.resolve_collision(2, 3);
    assert!(s.bullets[0].collided && s.bullets[1].collided);
}

#[test]
fn marked_projectiles_are_gone_by_the_next_pass() {
    let mut s = arena();
    s.bullets.push(Bullet { body: 3, collided: false });
    s.next_body = 4;
    s.resolve_collision(2, 1);
    s.despawn_collided_bullets();
    assert_eq!(s.bullets.len(), 1);
    assert_eq!(s.bullets[0].body, 3);
    assert!(!s.bullets[0].collided);
}

#[test]
fn enemy_dies_once_and_scores_once() {
    let mut s = arena();
    s.resolve_collision(2, 1);
    s.handle_enemy_death();
    // at 50 health the enemy still pursues
    assert!(matches!(s.enemies[0].state, EnemyState::Zombie));
    assert_eq!(s.spawner.unwrap().score, 0);

    s.resolve_collision(2, 1);
    assert_eq!(s.enemies[0].health, 0);
    s.handle_enemy_death();
    assert!(matches!(s.enemies[0].state, EnemyState::Destroyed));
    assert_eq!(s.spawner.unwrap().score, 50);

    // further passes and further hits on the corpse change nothing but health
    s.handle_enemy_death();
    assert_eq!(s.spawner.unwrap().score, 50);
    s.resolve_collision(2, 1);
    assert_eq!(s.enemies[0].health, -50);
    s.handle_enemy_death();
    assert!(matches!(s.enemies[0].state, EnemyState::Destroyed));
    assert_eq!(s.spawner.unwrap().score, 50);
}

#[test]
fn corpses_neither_bite_nor_block_hits_on_others() {
    let mut s = arena();
    s.enemies.push(Enemy { body: 3, health: 100, state: EnemyState::Destroyed, x: 5, y: 5 });
    s.next_body = 4;
    // a corpse named in a contact still counts as an enemy body: the damage
    // model has no per-state filter, removal of its collider is the
    // engine's side
    let cues = s.resolve_collision(2, 3);
    assert!(cues.hit);
    assert_eq!(s.enemies[1].health, 50);
    assert_eq!(s.enemies[0].health, 100);
}

#[test]
fn death_check_fires_the_tick_health_reaches_zero() {
    let mut s = arena();
    let mut sm = StateMachine::new();
    sm.request(AppState::InGame);
    sm.apply_pending();

    for _ in 0..9 {
        s.resolve_collision(0, 1);
        s.detect_player_death(&mut sm);
        assert_eq!(sm.pending(), None);
    }
    assert_eq!(s.player.unwrap().health, 10);

    s.resolve_collision(0, 1);
    assert_eq!(s.player.unwrap().health, 0);
    s.detect_player_death(&mut sm);
    assert_eq!(sm.pending(), Some(AppState::Scoreboard));

    // a later contact with health already below zero still leaves a single
    // pending request, not a stack of them
    s.resolve_collision(0, 1);
    s.detect_player_death(&mut sm);
    s.detect_player_death(&mut sm);
    assert_eq!(sm.pending(), Some(AppState::Scoreboard));
    sm.apply_pending();
    assert_eq!(sm.current(), AppState::Scoreboard);
    assert_eq!(sm.pending(), None);
}

#[test]
fn combat_never_raises_health() {
    let mut s = arena();
    for _ in 0..4 {
        s.resolve_collision(0, 1);
        s.resolve_collision(2, 1);
        s.handle_enemy_death();
    }
    assert_eq!(s.player.unwrap().health, 60);
    assert_eq!(s.enemies[0].health, -100);
}

#[test]
fn session_reset_clears_everything() {
    let mut s = arena();
    s.resolve_collision(2, 1);
    s.reset();
    assert!(s.player.is_none());
    assert!(s.spawner.is_none());
    assert!(s.enemies.is_empty());
    assert!(s.bullets.is_empty());
    assert_eq!(s.next_body, 0);
}
