use wavecore::session::{FireOutcome, GameSession};
use wavecore::sounds::{PlayerSound, PlayerSoundType, SoundQueue};

#[test]
fn player_spawns_with_full_health_and_shells() {
    let mut s = GameSession::new();
    s.ensure_player();
    let p = s.player.unwrap();
    assert_eq!(p.health, 100);
    assert_eq!(p.shells, 6);
    // re-entry with a live player changes nothing
    s.ensure_player();
    assert_eq!(s.player.unwrap().body, p.body);
}

#[test]
fn a_shot_spends_a_shell_and_spawns_five_projectiles() {
    let mut s = GameSession::new();
    s.ensure_player();
    let out = s.handle_fire_input(1_000);
    assert!(matches!(out, FireOutcome::Fired));
    assert_eq!(s.player.unwrap().shells, 5);
    assert_eq!(s.bullets.len(), 5);
    for b in s.bullets.iter() {
        assert!(!b.collided);
    }
    // the five projectiles are distinct actors
    for i in 0..5 {
        for j in 0..i {
            assert_ne!(s.bullets[i].body, s.bullets[j].body);
        }
    }
}

#[test]
fn a_shot_schedules_three_cues_at_fixed_offsets() {
    let mut s = GameSession::new();
    s.ensure_player();
    s.handle_fire_input(1_000);
    assert_eq!(s.sounds.len(), 3);
    // nothing is due at the scheduling instant (cues play strictly after)
    assert_eq!(s.sounds.poll_due(1_000), Vec::<PlayerSoundType>::new());
    assert_eq!(s.sounds.poll_due(1_001), vec![PlayerSoundType::Gunshot]);
    assert_eq!(s.sounds.poll_due(1_300), Vec::<PlayerSoundType>::new());
    assert_eq!(s.sounds.poll_due(1_301), vec![PlayerSoundType::Cock]);
    assert_eq!(s.sounds.poll_due(1_601), vec![PlayerSoundType::Shell]);
    assert_eq!(s.sounds.len(), 0);
}

#[test]
fn firing_on_empty_gives_one_cue_and_nothing_else() {
    let mut s = GameSession::new();
    s.ensure_player();
    for _ in 0..6 {
        assert!(matches!(s.handle_fire_input(0), FireOutcome::Fired));
    }
    assert_eq!(s.player.unwrap().shells, 0);
    assert_eq!(s.bullets.len(), 30);
    let scheduled = s.sounds.len();

    let out = s.handle_fire_input(5_000);
    assert!(matches!(out, FireOutcome::DryFire));
    assert_eq!(s.player.unwrap().shells, 0);
    assert_eq!(s.bullets.len(), 30);
    assert_eq!(s.sounds.len(), scheduled + 1);
    let due = s.sounds.poll_due(u64::MAX);
    assert_eq!(due[due.len() - 1], PlayerSoundType::Empty);
}

#[test]
fn fire_input_without_a_player_is_skipped() {
    let mut s = GameSession::new();
    let out = s.handle_fire_input(10);
    assert!(matches!(out, FireOutcome::NoPlayer));
    assert_eq!(s.bullets.len(), 0);
    assert_eq!(s.sounds.len(), 0);
}

#[test]
fn reload_always_restores_six_shells() {
    let mut s = GameSession::new();
    s.ensure_player();
    // from empty
    for _ in 0..6 {
        s.handle_fire_input(0);
    }
    assert_eq!(s.player.unwrap().shells, 0);
    s.handle_reload_input();
    assert_eq!(s.player.unwrap().shells, 6);
    // mid-load
    s.handle_fire_input(0);
    s.handle_fire_input(0);
    s.handle_reload_input();
    assert_eq!(s.player.unwrap().shells, 6);
    // already full
    s.handle_reload_input();
    assert_eq!(s.player.unwrap().shells, 6);
}

#[test]
fn sound_queue_keeps_schedule_order_and_partitions_by_time() {
    let mut q = SoundQueue::new();
    q.schedule(PlayerSound { time_to_play: 50, sound_type: PlayerSoundType::Bite });
    q.schedule(PlayerSound { time_to_play: 10, sound_type: PlayerSoundType::Gunshot });
    q.schedule(PlayerSound { time_to_play: 99, sound_type: PlayerSoundType::Shell });
    q.schedule(PlayerSound { time_to_play: 20, sound_type: PlayerSoundType::Cock });

    let due = q.poll_due(51);
    assert_eq!(due, vec![PlayerSoundType::Bite, PlayerSoundType::Gunshot, PlayerSoundType::Cock]);
    assert_eq!(q.len(), 1);
    assert_eq!(q.get(0).sound_type, PlayerSoundType::Shell);

    let due = q.poll_due(100);
    assert_eq!(due, vec![PlayerSoundType::Shell]);
    assert_eq!(q.len(), 0);
}
