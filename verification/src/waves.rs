use vstd::prelude::*;
use crate::enemies::{
    Enemy, EnemySpawner, EnemyState, ARENA_MAX_X, ARENA_MAX_Y, ARENA_MIN_X, ARENA_MIN_Y,
    ENEMY_START_HEALTH, STAGE_GAP_MS,
};
use crate::enemies::{ideal_enemy_count, max_enemies, spec_ideal_enemy_count, spec_max_enemies};
use crate::rng::rng_i32_inclusive;
use crate::session::{GameSession, GameSessionView};

verus! {

/// Whole milliseconds a stage's spawn clock has been running at reading
/// `now_ms`: zero while the reading has not reached the armed start time.
pub open spec fn spec_stage_elapsed_ms(now_ms: u64, start_ms: u64) -> u64 {
    if now_ms >= start_ms {
        (now_ms - start_ms) as u64
    } else {
        0
    }
}

/// The stage clock's step: a spawner that is armed but not yet started
/// starts once a reading lies strictly past its start time. Everything else
/// is untouched.
pub open spec fn spec_advance_clock(v: GameSessionView, now_ms: u64) -> GameSessionView {
    match v.spawner {
        Some(sp) => if !sp.started && now_ms > sp.start_time {
            GameSessionView { spawner: Some(EnemySpawner { started: true, ..sp }), ..v }
        } else {
            v
        },
        None => v,
    }
}

/// Whether the wave director spawns an enemy this tick: the stage must have
/// started, the live population (of either state) must sit under the hard
/// cap, and under the ramp's ideal count for the elapsed time.
pub open spec fn spec_wants_spawn(v: GameSessionView, now_ms: u64) -> bool {
    &&& v.spawner matches Some(sp)
    &&& sp.started
    &&& v.enemies.len() < spec_max_enemies(sp.stage)
    &&& (v.enemies.len() as int) < spec_ideal_enemy_count(
        sp.stage,
        spec_stage_elapsed_ms(now_ms, sp.start_time),
    )
}

/// Enemies of `s` that are inert corpses.
pub open spec fn spec_count_destroyed(s: Seq<Enemy>) -> int
    decreases s.len(),
{
    if s.len() == 0 {
        0
    } else {
        spec_count_destroyed(s.drop_last()) + if s.last().state is Destroyed {
            1int
        } else {
            0int
        }
    }
}

pub proof fn lemma_count_destroyed_bounds(s: Seq<Enemy>)
    ensures
        0 <= spec_count_destroyed(s) <= s.len(),
    decreases s.len(),
{
    if s.len() > 0 {
        lemma_count_destroyed_bounds(s.drop_last());
    }
}

/// Whether the current stage is cleared: every enemy the stage allows has
/// been destroyed.
pub open spec fn spec_stage_cleared(v: GameSessionView) -> bool {
    v.spawner matches Some(sp) && spec_count_destroyed(v.enemies) >= spec_max_enemies(sp.stage)
}

/// The stage-end step: on a cleared stage, every enemy (of either state) is
/// despawned, the stage number advances, and the spawn clock is re-armed
/// for the inter-stage pause. Otherwise nothing changes.
pub open spec fn spec_check_stage_end(v: GameSessionView, now_ms: u64) -> GameSessionView {
    if spec_stage_cleared(v) {
        let sp = v.spawner->Some_0;
        GameSessionView {
            enemies: Seq::empty(),
            spawner: Some(EnemySpawner {
                stage: (sp.stage + 1) as u32,
                started: false,
                start_time: now_ms.saturating_add(STAGE_GAP_MS),
                score: sp.score,
            }),
            ..v
        }
    } else {
        v
    }
}

impl GameSession {
    /// The stage clock, run each tick: see `spec_advance_clock`.
    pub fn advance_clock(&mut self, now_ms: u64)
        requires
            old(self).wf(),
        ensures
            final(self).wf(),
            final(self)@ == spec_advance_clock(old(self)@, now_ms),
    {
        if let Some(sp) = self.spawner {
            if !sp.started && now_ms > sp.start_time {
                self.spawner = Some(EnemySpawner { started: true, ..sp });
            }
        }
    }

    /// Count the enemies that are inert corpses.
    pub fn count_destroyed(&self) -> (n: usize)
        ensures
            n == spec_count_destroyed(self@.enemies),
    {
        let ghost q = self.enemies@;
        let mut n: usize = 0;
        let len = self.enemies.len();
        let mut i: usize = 0;
        while i < len
            invariant
                i <= len,
                len == q.len(),
                q == self.enemies@,
                n <= i,
                n == spec_count_destroyed(q.take(i as int)),
            decreases len - i,
        {
            let destroyed = match self.enemies[i].state {
                EnemyState::Destroyed => true,
                EnemyState::Zombie => false,
            };
            if destroyed {
                n = n + 1;
            }
            proof {
                assert(q.take(i as int + 1).drop_last() =~= q.take(i as int));
                assert(q.take(i as int + 1).last() == q[i as int]);
            }
            i = i + 1;
        }
        proof {
            assert(q.take(len as int) =~= q);
        }
        n
    }

    /// The wave director's spawn step, run once per tick: spawn at most one
    /// enemy, and only while both the hard cap and the ramp's ideal count
    /// leave room (see `spec_wants_spawn`). The new enemy starts at full
    /// health, pursuing, at a position drawn uniformly from the arena
    /// bounds. A session within the hard cap stays within it: the cap is
    /// never exceeded, whatever the ramp asks for.
    pub fn maybe_spawn_enemy(&mut self, now_ms: u64, rng: &mut bevy_turborand::GlobalRng)
        requires
            old(self).wf(),
            old(self)@.next_body < u64::MAX,
        ensures
            final(self).wf(),
            !spec_wants_spawn(old(self)@, now_ms) ==> final(self)@ == old(self)@,
            spec_wants_spawn(old(self)@, now_ms) ==> ({
                let e = final(self)@.enemies.last();
                &&& final(self)@.player == old(self)@.player
                &&& final(self)@.spawner == old(self)@.spawner
                &&& final(self)@.bullets == old(self)@.bullets
                &&& final(self)@.sounds == old(self)@.sounds
                &&& final(self)@.next_body == old(self)@.next_body + 1
                &&& final(self)@.enemies.len() == old(self)@.enemies.len() + 1
                &&& final(self)@.enemies.take(old(self)@.enemies.len() as int) == old(self)@.enemies
                &&& e.body == old(self)@.next_body
                &&& e.health == ENEMY_START_HEALTH
                &&& e.state is Zombie
                &&& ARENA_MIN_X <= e.x <= ARENA_MAX_X
                &&& ARENA_MIN_Y <= e.y <= ARENA_MAX_Y
            }),
            old(self)@.spawner matches Some(sp) ==> (old(self)@.enemies.len() <= spec_max_enemies(
                sp.stage,
            ) ==> final(self)@.enemies.len() <= spec_max_enemies(sp.stage)),
    {
        let sp = match self.spawner {
            Some(sp) => sp,
            None => { return; },
        };
        if !sp.started {
            return;
        }
        let elapsed = now_ms.saturating_sub(sp.start_time);
        let cap = max_enemies(sp.stage);
        let count = self.enemies.len();
        if count as u64 >= cap {
            return;
        }
        let ideal = ideal_enemy_count(sp.stage, elapsed);
        if (count as u128) < ideal {
            let x = rng_i32_inclusive(rng, ARENA_MIN_X, ARENA_MAX_X);
            let y = rng_i32_inclusive(rng, ARENA_MIN_Y, ARENA_MAX_Y);
            let body = self.next_body;
            let e = Enemy { body, health: ENEMY_START_HEALTH, state: EnemyState::Zombie, x, y };
            self.enemies.push(e);
            self.next_body = body + 1;
            proof {
                let q0 = old(self)@.enemies;
                let q1 = self@.enemies;
                assert(q1.take(q0.len() as int) =~= q0);
                assert forall|j: int| 0 <= j < self@.bullets.len() implies #[trigger] self@.bullets[j]
                    == old(self)@.bullets[j] by {}
                assert forall|i: int| 0 <= i < q1.len() implies (#[trigger] q1[i]).body
                    < self@.next_body by {
                    if i < q0.len() {
                        assert(q1[i] == q0[i]);
                    }
                }
                assert forall|i: int, j: int| 0 <= i < j < q1.len() implies q1[i].body
                    != q1[j].body by {
                    assert(q1[i] == q0[i]);
                    if j < q0.len() {
                        assert(q1[j] == q0[j]);
                    } else {
                        assert(q1[j] == e);
                    }
                }
                assert forall|i: int, j: int|
                    0 <= i < q1.len() && 0 <= j < self@.bullets.len() implies q1[i].body
                    != self@.bullets[j].body by {
                    assert(self@.bullets[j] == old(self)@.bullets[j]);
                    if i < q0.len() {
                        assert(q1[i] == q0[i]);
                    } else {
                        assert(q1[i] == e);
                    }
                }
                match self@.player {
                    Some(p) => {
                        assert forall|i: int| 0 <= i < q1.len() implies (#[trigger] q1[i]).body
                            != p.body by {
                            if i < q0.len() {
                                assert(q1[i] == q0[i]);
                            } else {
                                assert(q1[i] == e);
                            }
                        }
                    },
                    None => {},
                }
            }
        }
    }

    /// The stage-end check, run each tick: see `spec_check_stage_end`. The
    /// stage number is capped only by its machine width, which the caller
    /// rules out.
    pub fn check_stage_end(&mut self, now_ms: u64)
        requires
            old(self).wf(),
            old(self)@.spawner matches Some(sp) ==> sp.stage < u32::MAX,
        ensures
            final(self).wf(),
            final(self)@ == spec_check_stage_end(old(self)@, now_ms),
    {
        let sp = match self.spawner {
            Some(sp) => sp,
            None => { return; },
        };
        let destroyed = self.count_destroyed();
        let cap = max_enemies(sp.stage);
        proof {
            lemma_count_destroyed_bounds(self@.enemies);
        }
        if destroyed as u64 >= cap {
            self.enemies.clear();
            self.spawner = Some(EnemySpawner {
                stage: sp.stage + 1,
                started: false,
                start_time: now_ms.saturating_add(STAGE_GAP_MS),
                score: sp.score,
            });
        }
    }
}

/// After a stage ends at reading `now_ms`, no spawn can happen at any
/// reading `t` within the inter-stage pause: the re-armed clock refuses to
/// start until a reading lies strictly past `now_ms` plus the pause, and an
/// un-started spawner never spawns.
pub proof fn lemma_stage_gap_blocks_spawn(v: GameSessionView, now_ms: u64, t: u64)
    requires
        spec_stage_cleared(v),
        t <= now_ms.saturating_add(STAGE_GAP_MS),
    ensures
        !spec_wants_spawn(spec_check_stage_end(v, now_ms), t),
        !spec_wants_spawn(spec_advance_clock(spec_check_stage_end(v, now_ms), t), t),
{
}

} // verus!
