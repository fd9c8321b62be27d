use vstd::prelude::*;
use crate::enemies::{Enemy, EnemySpawner};
use crate::player::{
    Bullet, Player, COCK_DELAY_MS, EJECT_DELAY_MS, FULL_SHELLS, PELLETS_PER_SHOT,
    PLAYER_START_HEALTH,
};
use crate::sounds::{PlayerSound, PlayerSoundType, SoundQueue};
use crate::states::{AppState, StateMachine};

verus! {

/// What one fire input did.
#[derive(Clone, Copy, Debug, PartialEq, Eq, Structural)]
pub enum FireOutcome {
    /// A shot left the barrel: five projectiles exist, one recoil impulse
    /// is owed to the physics glue, and a shell was spent.
    Fired,
    /// The trigger clicked on an empty gun: an "empty" cue and nothing else.
    DryFire,
    /// No player is live this tick; the input is skipped.
    NoPlayer,
}

/// The mathematical model of a running game session, used by every
/// contract in this crate: the same data as `GameSession`, with the
/// collections abstracted to sequences.
#[verifier::ext_equal]
pub struct GameSessionView {
    pub player: Option<Player>,
    pub spawner: Option<EnemySpawner>,
    pub enemies: Seq<Enemy>,
    pub bullets: Seq<Bullet>,
    pub sounds: Seq<PlayerSound>,
    pub next_body: u64,
}

impl GameSessionView {
    /// Well-formedness: every body identifier in the session is distinct —
    /// a collision notification names at most one actor per side — and lies
    /// below `next_body`, so a fresh identifier never collides with a live
    /// one. The player's shell count never goes negative, and stages count
    /// from one.
    pub open spec fn wf(self) -> bool {
        &&& (self.player matches Some(p) ==> p.body < self.next_body && p.shells >= 0)
        &&& (self.spawner matches Some(sp) ==> sp.stage >= 1)
        &&& (forall|i: int| 0 <= i < self.enemies.len() ==> (#[trigger] self.enemies[i]).body < self.next_body)
        &&& (forall|i: int| 0 <= i < self.bullets.len() ==> (#[trigger] self.bullets[i]).body < self.next_body)
        &&& (forall|i: int, j: int| #![trigger self.enemies[i], self.enemies[j]]
            0 <= i < j < self.enemies.len() ==> self.enemies[i].body != self.enemies[j].body)
        &&& (forall|i: int, j: int| #![trigger self.bullets[i], self.bullets[j]]
            0 <= i < j < self.bullets.len() ==> self.bullets[i].body != self.bullets[j].body)
        &&& (forall|i: int, j: int| #![trigger self.enemies[i], self.bullets[j]]
            0 <= i < self.enemies.len() && 0 <= j < self.bullets.len()
                ==> self.enemies[i].body != self.bullets[j].body)
        &&& (self.player matches Some(p) ==> forall|i: int|
            0 <= i < self.enemies.len() ==> (#[trigger] self.enemies[i]).body != p.body)
        &&& (self.player matches Some(p) ==> forall|i: int|
            0 <= i < self.bullets.len() ==> (#[trigger] self.bullets[i]).body != p.body)
    }

    /// Whether `b` names the live player.
    pub open spec fn is_player_body(self, b: u64) -> bool {
        self.player matches Some(p) && p.body == b
    }

    /// Whether `b` names a live enemy (of either state).
    pub open spec fn has_enemy(self, b: u64) -> bool {
        exists|i: int| 0 <= i < self.enemies.len() && (#[trigger] self.enemies[i]).body == b
    }

    /// The index of the enemy named `b`; meaningful only when `has_enemy`
    /// holds (under `wf` the index is unique).
    pub open spec fn enemy_idx(self, b: u64) -> int {
        choose|i: int| 0 <= i < self.enemies.len() && (#[trigger] self.enemies[i]).body == b
    }

    /// Whether `b` names a live projectile.
    pub open spec fn has_bullet(self, b: u64) -> bool {
        exists|i: int| 0 <= i < self.bullets.len() && (#[trigger] self.bullets[i]).body == b
    }

    /// The index of the projectile named `b`; meaningful only when
    /// `has_bullet` holds.
    pub open spec fn bullet_idx(self, b: u64) -> int {
        choose|i: int| 0 <= i < self.bullets.len() && (#[trigger] self.bullets[i]).body == b
    }
}

/// All mutable gameplay state of one session: the two mode-scoped
/// singletons (player, wave director), the live actor sets, the deferred
/// audio cues, and the allocator for fresh body identifiers. The engine
/// owns the physics and the pictures; this owns the decisions.
pub struct GameSession {
    pub player: Option<Player>,
    pub spawner: Option<EnemySpawner>,
    pub enemies: Vec<Enemy>,
    pub bullets: Vec<Bullet>,
    pub sounds: SoundQueue,
    pub next_body: u64,
}

impl View for GameSession {
    type V = GameSessionView;

    open spec fn view(&self) -> GameSessionView {
        GameSessionView {
            player: self.player,
            spawner: self.spawner,
            enemies: self.enemies@,
            bullets: self.bullets@,
            sounds: self.sounds@,
            next_body: self.next_body,
        }
    }
}

impl GameSession {
    /// Shorthand for the well-formedness of the session's model.
    pub open spec fn wf(self) -> bool {
        self@.wf()
    }

    /// An empty session: no singletons, no actors, nothing scheduled.
    pub fn new() -> (s: GameSession)
        ensures
            s@.player is None,
            s@.spawner is None,
            s@.enemies == Seq::<Enemy>::empty(),
            s@.bullets == Seq::<Bullet>::empty(),
            s@.sounds == Seq::<PlayerSound>::empty(),
            s@.next_body == 0,
            s.wf(),
    {
        GameSession {
            player: None,
            spawner: None,
            enemies: Vec::new(),
            bullets: Vec::new(),
            sounds: SoundQueue::new(),
            next_body: 0,
        }
    }

    /// Run on entering the game: create the player if none exists, at full
    /// health with a full load of shells; with a player already live this
    /// is a no-op, preserving the zero-or-one singleton discipline.
    pub fn ensure_player(&mut self)
        requires
            old(self).wf(),
            old(self)@.next_body < u64::MAX,
        ensures
            final(self).wf(),
            old(self)@.player is Some ==> final(self)@ == old(self)@,
            old(self)@.player is None ==> final(self)@ == (GameSessionView {
                player: Some(Player {
                    body: old(self)@.next_body,
                    health: PLAYER_START_HEALTH,
                    shells: FULL_SHELLS,
                }),
                next_body: (old(self)@.next_body + 1) as u64,
                ..old(self)@
            }),
    {
        if self.player.is_none() {
            let body = self.next_body;
            self.player = Some(Player { body, health: PLAYER_START_HEALTH, shells: FULL_SHELLS });
            self.next_body = body + 1;
        }
    }

    /// Run on entering the game: create the wave director if none exists,
    /// at stage one with the spawn clock armed at the current reading, so
    /// the first stage begins without the inter-stage pause.
    pub fn ensure_spawner(&mut self, now_ms: u64)
        requires
            old(self).wf(),
        ensures
            final(self).wf(),
            old(self)@.spawner is Some ==> final(self)@ == old(self)@,
            old(self)@.spawner is None ==> final(self)@ == (GameSessionView {
                spawner: Some(EnemySpawner {
                    stage: 1,
                    started: false,
                    start_time: now_ms,
                    score: 0,
                }),
                ..old(self)@
            }),
    {
        if self.spawner.is_none() {
            self.spawner = Some(EnemySpawner { stage: 1, started: false, start_time: now_ms, score: 0 });
        }
    }

    /// Returning to the main menu tears the whole session down; the next
    /// game starts from defaults.
    pub fn reset(&mut self)
        ensures
            final(self)@.player is None,
            final(self)@.spawner is None,
            final(self)@.enemies == Seq::<Enemy>::empty(),
            final(self)@.bullets == Seq::<Bullet>::empty(),
            final(self)@.sounds == Seq::<PlayerSound>::empty(),
            final(self)@.next_body == 0,
            final(self).wf(),
    {
        *self = GameSession::new();
    }

    /// Reload input: refill to a full load unconditionally, whatever the
    /// prior count — even mid-stage or when already full.
    pub fn handle_reload_input(&mut self)
        requires
            old(self).wf(),
        ensures
            final(self).wf(),
            old(self)@.player is None ==> final(self)@ == old(self)@,
            old(self)@.player matches Some(p) ==> final(self)@ == (GameSessionView {
                player: Some(Player { shells: FULL_SHELLS, ..p }),
                ..old(self)@
            }),
    {
        if let Some(p) = self.player {
            self.player = Some(Player { shells: FULL_SHELLS, ..p });
        }
    }

    /// A fire input, handled while the game runs. With shells in the gun, a
    /// shot spends one shell, puts five projectiles into the world, owes
    /// the physics glue exactly one recoil impulse (the `Fired` outcome),
    /// and schedules the three-part firing sound: the gunshot at once, the
    /// cock and the shell eject at their fixed offsets. On an empty gun the
    /// only effect is an immediate "empty" cue. The projectiles' flight
    /// directions are the presentation layer's affair; their identities and
    /// lifecycle are decided here.
    pub fn handle_fire_input(&mut self, now_ms: u64) -> (outcome: FireOutcome)
        requires
            old(self).wf(),
            old(self)@.next_body + PELLETS_PER_SHOT <= u64::MAX,
            now_ms + EJECT_DELAY_MS <= u64::MAX,
        ensures
            final(self).wf(),
            old(self)@.player is None ==> (final(self)@ == old(self)@ && outcome is NoPlayer),
            old(self)@.player matches Some(p) ==> (p.shells > 0 ==> ({
                let n0 = old(self)@.bullets.len() as int;
                &&& outcome is Fired
                &&& final(self)@.player == Some(Player { shells: (p.shells - 1) as i32, ..p })
                &&& final(self)@.spawner == old(self)@.spawner
                &&& final(self)@.enemies == old(self)@.enemies
                &&& final(self)@.next_body == old(self)@.next_body + PELLETS_PER_SHOT
                &&& final(self)@.bullets.len() == n0 + PELLETS_PER_SHOT
                &&& final(self)@.bullets.take(n0) == old(self)@.bullets
                &&& (forall|k: int| 0 <= k < PELLETS_PER_SHOT
                    ==> #[trigger] final(self)@.bullets[n0 + k] == (Bullet {
                    body: (old(self)@.next_body + k) as u64,
                    collided: false,
                }))
                &&& final(self)@.sounds == old(self)@.sounds.push(
                    PlayerSound { time_to_play: now_ms, sound_type: PlayerSoundType::Gunshot },
                ).push(
                    PlayerSound {
                        time_to_play: (now_ms + COCK_DELAY_MS) as u64,
                        sound_type: PlayerSoundType::Cock,
                    },
                ).push(
                    PlayerSound {
                        time_to_play: (now_ms + EJECT_DELAY_MS) as u64,
                        sound_type: PlayerSoundType::Shell,
                    },
                )
            })),
            old(self)@.player matches Some(p) ==> (p.shells <= 0 ==> ({
                &&& outcome is DryFire
                &&& final(self)@.player == old(self)@.player
                &&& final(self)@.spawner == old(self)@.spawner
                &&& final(self)@.enemies == old(self)@.enemies
                &&& final(self)@.bullets == old(self)@.bullets
                &&& final(self)@.next_body == old(self)@.next_body
                &&& final(self)@.sounds == old(self)@.sounds.push(
                    PlayerSound { time_to_play: now_ms, sound_type: PlayerSoundType::Empty },
                )
            })),
    {
        let p = match self.player {
            Some(p) => p,
            None => { return FireOutcome::NoPlayer; },
        };
        if p.shells > 0 {
            self.sounds.schedule(
                PlayerSound { time_to_play: now_ms, sound_type: PlayerSoundType::Gunshot },
            );
            self.sounds.schedule(
                PlayerSound {
                    time_to_play: now_ms + COCK_DELAY_MS,
                    sound_type: PlayerSoundType::Cock,
                },
            );
            self.sounds.schedule(
                PlayerSound {
                    time_to_play: now_ms + EJECT_DELAY_MS,
                    sound_type: PlayerSoundType::Shell,
                },
            );
            let b0 = self.next_body;
            self.bullets.push(Bullet { body: b0, collided: false });
            self.bullets.push(Bullet { body: b0 + 1, collided: false });
            self.bullets.push(Bullet { body: b0 + 2, collided: false });
            self.bullets.push(Bullet { body: b0 + 3, collided: false });
            self.bullets.push(Bullet { body: b0 + 4, collided: false });
            self.next_body = b0 + 5;
            self.player = Some(Player { shells: p.shells - 1, ..p });
            proof {
                let q0 = old(self)@.bullets;
                let q1 = self@.bullets;
                let n0 = q0.len() as int;
                assert(q1.take(n0) =~= q0);
                assert forall|j: int| 0 <= j < self@.enemies.len() implies #[trigger] self@.enemies[j]
                    == old(self)@.enemies[j] by {}
                assert forall|j: int| 0 <= j < q1.len() implies (#[trigger] q1[j]).body
                    < self@.next_body by {
                    if j < n0 {
                        assert(q1[j] == q0[j]);
                    }
                }
                assert forall|i: int, j: int| 0 <= i < j < q1.len() implies q1[i].body
                    != q1[j].body by {
                    if i < n0 {
                        assert(q1[i] == q0[i]);
                    }
                    if j < n0 {
                        assert(q1[j] == q0[j]);
                    }
                }
                assert forall|i: int, j: int|
                    0 <= i < self@.enemies.len() && 0 <= j < q1.len() implies self@.enemies[i].body
                    != q1[j].body by {
                    assert(self@.enemies[i] == old(self)@.enemies[i]);
                    if j < n0 {
                        assert(q1[j] == q0[j]);
                    }
                }
                match self@.player {
                    Some(p2) => {
                        assert forall|j: int| 0 <= j < q1.len() implies (#[trigger] q1[j]).body
                            != p2.body by {
                            if j < n0 {
                                assert(q1[j] == q0[j]);
                            }
                        }
                    },
                    None => {},
                }
            }
            FireOutcome::Fired
        } else {
            self.sounds.schedule(
                PlayerSound { time_to_play: now_ms, sound_type: PlayerSoundType::Empty },
            );
            FireOutcome::DryFire
        }
    }

    /// The per-tick death check: the tick the player's health first sits at
    /// or below zero, a single switch to the scoreboard is requested. The
    /// state machine's pending slot holds at most one request, so repeated
    /// checks cannot stack transitions.
    pub fn detect_player_death(&self, sm: &mut StateMachine)
        ensures
            final(sm).spec_current() == old(sm).spec_current(),
            (self@.player matches Some(p) && p.health <= 0) ==> final(sm).spec_pending()
                == Some(AppState::Scoreboard),
            !(self@.player matches Some(p) && p.health <= 0) ==> *final(sm) == *old(sm),
    {
        if let Some(p) = self.player {
            if p.health <= 0 {
                sm.request(AppState::Scoreboard);
            }
        }
    }
}

} // verus!
