use vstd::prelude::*;
use crate::enemies::{Enemy, EnemySpawner, EnemyState, ENEMY_HIT_DAMAGE, KILL_SCORE};
use crate::player::{Bullet, Player, BITE_DAMAGE};
use crate::session::{GameSession, GameSessionView};

verus! {

/// Health after taking `d` damage: subtraction that stops at the type's
/// floor, so combat arithmetic never wraps.
pub open spec fn spec_damaged(h: i32, d: i32) -> i32 {
    if h - d < i32::MIN {
        i32::MIN
    } else {
        (h - d) as i32
    }
}

fn damaged(h: i32, d: i32) -> (r: i32)
    requires
        d >= 0,
    ensures
        r == spec_damaged(h, d),
{
    match h.checked_sub(d) {
        Some(v) => v,
        None => i32::MIN,
    }
}

/// The projectiles that survive a lifecycle pass: those that have not
/// collided with anything, in their original order.
pub open spec fn spec_live_bullets(s: Seq<Bullet>) -> Seq<Bullet> {
    s.filter(|bl: Bullet| !bl.collided)
}

/// The lifecycle pass over projectiles: every marked projectile is removed,
/// nothing else changes.
pub open spec fn spec_despawn_collided(v: GameSessionView) -> GameSessionView {
    GameSessionView { bullets: spec_live_bullets(v.bullets), ..v }
}

/// Surviving projectiles are drawn from the original set: each one appears
/// in `s`, there are no more of them than before, and distinct body
/// identifiers stay distinct.
proof fn lemma_live_bullets_members(s: Seq<Bullet>)
    ensures
        spec_live_bullets(s).len() <= s.len(),
        forall|i: int| 0 <= i < spec_live_bullets(s).len() ==> s.contains(
            #[trigger] spec_live_bullets(s)[i],
        ),
        (forall|i: int, j: int| #![trigger s[i], s[j]] 0 <= i < j < s.len() ==> s[i].body
            != s[j].body) ==> (forall|i: int, j: int|
            #![trigger spec_live_bullets(s)[i], spec_live_bullets(s)[j]]
            0 <= i < j < spec_live_bullets(s).len() ==> spec_live_bullets(s)[i].body
                != spec_live_bullets(s)[j].body),
    decreases s.len(),
{
    reveal(Seq::filter);
    if s.len() > 0 {
        let d = s.drop_last();
        let f = spec_live_bullets(s);
        let fd = spec_live_bullets(d);
        lemma_live_bullets_members(d);
        assert forall|i: int| 0 <= i < f.len() implies s.contains(#[trigger] f[i]) by {
            if i < fd.len() {
                assert(f[i] == fd[i]);
                assert(d.contains(fd[i]));
                let k = choose|k: int| 0 <= k < d.len() && d[k] == fd[i];
                assert(s[k] == f[i]);
            } else {
                assert(f[i] == s.last());
                assert(s[s.len() - 1] == s.last());
            }
        }
        if forall|i: int, j: int| #![trigger s[i], s[j]] 0 <= i < j < s.len() ==> s[i].body
            != s[j].body {
            assert forall|i: int, j: int| 0 <= i < j < d.len() implies (#[trigger] d[i]).body
                != (#[trigger] d[j]).body by {
                assert(d[i] == s[i] && d[j] == s[j]);
            }
            assert forall|i: int, j: int| 0 <= i < j < f.len() implies (#[trigger] f[i]).body
                != (#[trigger] f[j]).body by {
                if j < fd.len() {
                    assert(f[i] == fd[i] && f[j] == fd[j]);
                } else {
                    assert(f[j] == s.last());
                    assert(f[i] == fd[i]);
                    assert(d.contains(fd[i]));
                    let k = choose|k: int| 0 <= k < d.len() && d[k] == fd[i];
                    assert(s[k] == f[i]);
                    assert(s[k].body != s[s.len() - 1].body);
                }
            }
        }
    }
}

/// An enemy that dies this pass: out of health but still pursuing.
pub open spec fn spec_newly_dead(e: Enemy) -> bool {
    e.health <= 0 && e.state is Zombie
}

pub open spec fn spec_count_newly_dead(s: Seq<Enemy>) -> int
    decreases s.len(),
{
    if s.len() == 0 {
        0
    } else {
        spec_count_newly_dead(s.drop_last()) + if spec_newly_dead(s.last()) {
            1int
        } else {
            0int
        }
    }
}

pub proof fn lemma_count_newly_dead_bounds(s: Seq<Enemy>)
    ensures
        0 <= spec_count_newly_dead(s) <= s.len(),
    decreases s.len(),
{
    if s.len() > 0 {
        lemma_count_newly_dead_bounds(s.drop_last());
    }
}

/// The death transition applied to one enemy: an out-of-health pursuer
/// becomes an inert corpse; everyone else is untouched.
pub open spec fn spec_settled(e: Enemy) -> Enemy {
    if spec_newly_dead(e) {
        Enemy { state: EnemyState::Destroyed, ..e }
    } else {
        e
    }
}

pub open spec fn spec_settle_dead(s: Seq<Enemy>) -> Seq<Enemy> {
    s.map_values(|e: Enemy| spec_settled(e))
}

/// The score after `kills` awards on top of `base`, stopping at the type's
/// ceiling so the award arithmetic never wraps.
pub open spec fn spec_score_after(base: i32, kills: int) -> int {
    if base + KILL_SCORE * kills > i32::MAX {
        i32::MAX as int
    } else {
        base + KILL_SCORE * kills
    }
}

/// The death pass: with a wave director present, every out-of-health
/// pursuer flips to `Destroyed` — exactly once, since a corpse never
/// matches again — and each flip awards the score once. Without a wave
/// director the pass skips, as every singleton lookup does.
pub open spec fn spec_handle_enemy_death(v: GameSessionView) -> GameSessionView {
    match v.spawner {
        None => v,
        Some(sp) => GameSessionView {
            enemies: spec_settle_dead(v.enemies),
            spawner: Some(
                EnemySpawner {
                    score: spec_score_after(sp.score, spec_count_newly_dead(v.enemies)) as i32,
                    ..sp
                },
            ),
            ..v
        },
    }
}

impl GameSession {
    /// The per-tick death pass: see `spec_handle_enemy_death`. The engine
    /// glue removes the collider and body of each enemy that flips here.
    pub fn handle_enemy_death(&mut self)
        requires
            old(self).wf(),
        ensures
            final(self).wf(),
            final(self)@ == spec_handle_enemy_death(old(self)@),
    {
        let sp = match self.spawner {
            Some(sp) => sp,
            None => { return; },
        };
        let ghost q = self.enemies@;
        let mut score = sp.score;
        let len = self.enemies.len();
        let mut i: usize = 0;
        while i < len
            invariant
                i <= len,
                len == q.len(),
                self.enemies@.len() == q.len(),
                self.player == old(self).player,
                self.spawner == old(self).spawner,
                self.bullets@ == old(self)@.bullets,
                self.sounds@ == old(self)@.sounds,
                self.next_body == old(self)@.next_body,
                q == old(self)@.enemies,
                forall|j: int| i <= j < q.len() ==> self.enemies@[j] == q[j],
                forall|j: int| 0 <= j < i ==> self.enemies@[j] == spec_settled(q[j]),
                score as int == spec_score_after(sp.score, spec_count_newly_dead(q.take(i as int))),
            decreases len - i,
        {
            let e = self.enemies[i];
            let dying = e.health <= 0 && match e.state {
                EnemyState::Zombie => true,
                EnemyState::Destroyed => false,
            };
            if dying {
                self.enemies[i] = Enemy { state: EnemyState::Destroyed, ..e };
                score = match score.checked_add(KILL_SCORE) {
                    Some(v) => v,
                    None => i32::MAX,
                };
            }
            proof {
                assert(q.take(i as int + 1).drop_last() =~= q.take(i as int));
                assert(q.take(i as int + 1).last() == e);
                lemma_count_newly_dead_bounds(q.take(i as int));
            }
            i = i + 1;
        }
        self.spawner = Some(EnemySpawner { score, ..sp });
        proof {
            assert(q.take(len as int) =~= q);
            assert(self@.enemies =~= spec_settle_dead(q));
            assert forall|j: int| 0 <= j < self@.enemies.len() implies (
            #[trigger] self@.enemies[j]).body == q[j].body by {}
            assert forall|j: int| 0 <= j < self@.bullets.len() implies #[trigger] self@.bullets[j]
                == old(self)@.bullets[j] by {}
        }
    }

    /// The per-tick projectile sweep: drop every projectile marked by a
    /// collision; the rest keep their order.
    pub fn despawn_collided_bullets(&mut self)
        requires
            old(self).wf(),
        ensures
            final(self).wf(),
            final(self)@ == spec_despawn_collided(old(self)@),
    {
        let ghost q = self.bullets@;
        let mut kept: Vec<Bullet> = Vec::new();
        let len = self.bullets.len();
        let mut i: usize = 0;
        while i < len
            invariant
                i <= len,
                len == q.len(),
                q == self.bullets@,
                kept@ == spec_live_bullets(q.take(i as int)),
            decreases len - i,
        {
            let b = self.bullets[i];
            if !b.collided {
                kept.push(b);
            }
            proof {
                assert(q.take(i as int + 1).drop_last() =~= q.take(i as int));
                assert(q.take(i as int + 1).last() == b);
                reveal(Seq::filter);
            }
            i = i + 1;
        }
        proof {
            assert(q.take(len as int) =~= q);
            lemma_live_bullets_members(q);
        }
        self.bullets = kept;
    }
}

/// Whether a collision pair holds the player on one side and an enemy on
/// the other. Under `wf` the categories are disjoint, so at most one
/// reading of the pair matches.
pub open spec fn spec_bite_pair(v: GameSessionView, a: u64, b: u64) -> bool {
    ||| (v.is_player_body(a) && v.has_enemy(b))
    ||| (v.has_enemy(a) && v.is_player_body(b))
}

/// Whether a collision pair holds a projectile on one side and an enemy on
/// the other.
pub open spec fn spec_hit_pair(v: GameSessionView, a: u64, b: u64) -> bool {
    ||| (v.has_bullet(a) && v.has_enemy(b))
    ||| (v.has_enemy(a) && v.has_bullet(b))
}

/// The enemy side of a projectile–enemy pair.
pub open spec fn spec_hit_enemy_body(v: GameSessionView, a: u64, b: u64) -> u64 {
    if v.has_enemy(a) {
        a
    } else {
        b
    }
}

/// The marking applied to projectiles by one notification: each side of
/// the pair that is a projectile is marked for removal, whatever the other
/// side was — an enemy, the player, a wall, or another projectile.
pub open spec fn spec_mark_bullets(s: Seq<Bullet>, a: u64, b: u64) -> Seq<Bullet> {
    s.map_values(
        |bl: Bullet|
            if bl.body == a || bl.body == b {
                Bullet { collided: true, ..bl }
            } else {
                bl
            },
    )
}

/// One collision-begin notification resolved against the session. A
/// player–enemy pair costs the player health; a projectile–enemy pair costs
/// that enemy health; every projectile in the pair is marked. There is no
/// debounce: each reported contact applies its damage in full, and
/// collision-end notifications are never reported here.
pub open spec fn spec_resolve_collision(v: GameSessionView, a: u64, b: u64) -> GameSessionView {
    let player2 = match v.player {
        Some(p) => if spec_bite_pair(v, a, b) {
            Some(Player { health: spec_damaged(p.health, BITE_DAMAGE), ..p })
        } else {
            v.player
        },
        None => v.player,
    };
    let enemies2 = if spec_hit_pair(v, a, b) {
        let i = v.enemy_idx(spec_hit_enemy_body(v, a, b));
        v.enemies.update(
            i,
            (Enemy { health: spec_damaged(v.enemies[i].health, ENEMY_HIT_DAMAGE), ..v.enemies[i] }),
        )
    } else {
        v.enemies
    };
    GameSessionView {
        player: player2,
        enemies: enemies2,
        bullets: spec_mark_bullets(v.bullets, a, b),
        ..v
    }
}

/// The audio cues a resolved notification asks for, played immediately by
/// the audio glue (unlike the player's deferred firing cues).
#[derive(Clone, Copy, Debug, PartialEq, Eq, Structural)]
pub struct CollisionCues {
    pub bite: bool,
    pub hit: bool,
}

impl GameSession {
    /// Whether `b` names the live player.
    fn is_player(&self, b: u64) -> (r: bool)
        ensures
            r == self@.is_player_body(b),
    {
        match self.player {
            Some(p) => p.body == b,
            None => false,
        }
    }

    /// Find the enemy a collision notification names, if any.
    fn find_enemy(&self, b: u64) -> (r: Option<usize>)
        ensures
            match r {
                Some(i) => i < self@.enemies.len() && self@.enemies[i as int].body == b,
                None => !self@.has_enemy(b),
            },
    {
        let len = self.enemies.len();
        let mut i: usize = 0;
        while i < len
            invariant
                i <= len,
                len == self.enemies@.len(),
                forall|j: int| 0 <= j < i ==> (#[trigger] self.enemies@[j]).body != b,
            decreases len - i,
        {
            if self.enemies[i].body == b {
                return Some(i);
            }
            i = i + 1;
        }
        None
    }

    /// Whether `b` names a live projectile.
    fn is_bullet(&self, b: u64) -> (r: bool)
        ensures
            r == self@.has_bullet(b),
    {
        let len = self.bullets.len();
        let mut i: usize = 0;
        while i < len
            invariant
                i <= len,
                len == self.bullets@.len(),
                forall|j: int| 0 <= j < i ==> (#[trigger] self.bullets@[j]).body != b,
            decreases len - i,
        {
            if self.bullets[i].body == b {
                proof {
                    assert(self@.has_bullet(b)) by {
                        assert(0 <= (i as int) && (i as int) < self@.bullets.len() && (self@.bullets[i as int]).body == b);
                    }
                }
                return true;
            }
            i = i + 1;
        }
        false
    }

    /// Resolve one collision-begin notification between bodies `a` and `b`:
    /// see `spec_resolve_collision`. Combat only ever lowers health — of
    /// the player by the bite damage for each distinct player–enemy
    /// notification, of the struck enemy by the hit damage for each
    /// distinct projectile–enemy notification — and the returned cues say
    /// which damage was dealt. One call handles one notification; the
    /// driver chooses whether to drain the tick's whole batch through
    /// repeated calls or to throttle to one notification per tick, and each
    /// processed notification applies its damage in full either way.
    pub fn resolve_collision(&mut self, a: u64, b: u64) -> (cues: CollisionCues)
        requires
            old(self).wf(),
        ensures
            final(self).wf(),
            final(self)@ == spec_resolve_collision(old(self)@, a, b),
            cues.bite == spec_bite_pair(old(self)@, a, b),
            cues.hit == spec_hit_pair(old(self)@, a, b),
            old(self)@.player matches Some(p) ==> (final(self)@.player matches Some(p2)
                && p2.health <= p.health && p2.body == p.body && p2.shells == p.shells),
            old(self)@.player is None ==> final(self)@.player is None,
            final(self)@.enemies.len() == old(self)@.enemies.len(),
            forall|i: int| 0 <= i < old(self)@.enemies.len() ==> (
            #[trigger] final(self)@.enemies[i]).health <= old(self)@.enemies[i].health,
    {
        let ghost v0 = self@;
        let player_a = self.is_player(a);
        let player_b = self.is_player(b);
        let enemy_a = self.find_enemy(a);
        let enemy_b = self.find_enemy(b);
        let bullet_a = self.is_bullet(a);
        let bullet_b = self.is_bullet(b);
        proof {
            if let Some(i) = enemy_a {
                assert(v0.has_enemy(a));
            }
            if let Some(i) = enemy_b {
                assert(v0.has_enemy(b));
            }
        }

        let bite = (player_a && enemy_b.is_some()) || (enemy_a.is_some() && player_b);
        if bite {
            if let Some(p) = self.player {
                self.player = Some(Player { health: damaged(p.health, BITE_DAMAGE), ..p });
            }
        }

        let hit: Option<usize> = if enemy_a.is_some() && bullet_b {
            enemy_a
        } else if bullet_a && enemy_b.is_some() {
            enemy_b
        } else {
            None
        };
        if let Some(i) = hit {
            let e = self.enemies[i];
            self.enemies[i] = Enemy { health: damaged(e.health, ENEMY_HIT_DAMAGE), ..e };
            proof {
                let t = spec_hit_enemy_body(v0, a, b);
                let ci = v0.enemy_idx(t);
                assert(v0.has_enemy(t));
                assert(0 <= ci < v0.enemies.len() && v0.enemies[ci].body == t);
                assert(v0.enemies[i as int].body == t);
                assert(i as int == ci);
                assert(self@.enemies =~= spec_resolve_collision(v0, a, b).enemies);
            }
        } else {
            proof {
                assert(!spec_hit_pair(v0, a, b));
            }
        }

        let ghost mid = self@;
        let len = self.bullets.len();
        let mut i: usize = 0;
        while i < len
            invariant
                i <= len,
                len == v0.bullets.len(),
                self.bullets@.len() == v0.bullets.len(),
                self.player == mid.player,
                self.spawner == mid.spawner,
                self.enemies@ == mid.enemies,
                self.sounds@ == mid.sounds,
                self.next_body == mid.next_body,
                forall|j: int| i <= j < len ==> self.bullets@[j] == v0.bullets[j],
                forall|j: int| 0 <= j < i ==> self.bullets@[j] == spec_mark_bullets(
                    v0.bullets,
                    a,
                    b,
                )[j],
            decreases len - i,
        {
            let bl = self.bullets[i];
            if bl.body == a || bl.body == b {
                self.bullets[i] = Bullet { collided: true, ..bl };
            }
            i = i + 1;
        }
        proof {
            assert(self@.bullets =~= spec_mark_bullets(v0.bullets, a, b));
            assert forall|j: int| 0 <= j < self@.bullets.len() implies (
            #[trigger] self@.bullets[j]).body == v0.bullets[j].body by {}
            assert forall|j: int| 0 <= j < self@.enemies.len() implies (
            #[trigger] self@.enemies[j]).body == v0.enemies[j].body by {}
        }
        CollisionCues { bite, hit: hit.is_some() }
    }
}

/// No projectile that survives the lifecycle pass carries a collision mark:
/// a marked projectile is gone from the live set by the next pass.
pub proof fn lemma_despawned_bullets_inert(v: GameSessionView)
    ensures
        forall|i: int| 0 <= i < spec_despawn_collided(v).bullets.len() ==> !(
        #[trigger] spec_despawn_collided(v).bullets[i]).collided,
{
    broadcast use vstd::prelude::Seq::lemma_filter_pred;

}

/// A projectile named on either side of a collision notification is gone
/// from the live set once the next lifecycle pass has run, whatever the
/// other side was.
pub proof fn lemma_collision_removes_bullet(v: GameSessionView, a: u64, b: u64)
    ensures
        forall|i: int|
            0 <= i < spec_despawn_collided(spec_resolve_collision(v, a, b)).bullets.len() ==> {
                let bl = #[trigger] spec_despawn_collided(
                    spec_resolve_collision(v, a, b),
                ).bullets[i];
                bl.body != a && bl.body != b
            },
{
    broadcast use vstd::prelude::Seq::lemma_filter_pred;

    let marked = spec_mark_bullets(v.bullets, a, b);
    let live = spec_live_bullets(marked);
    lemma_live_bullets_members(marked);
    assert forall|i: int| 0 <= i < live.len() implies (#[trigger] live[i]).body != a
        && live[i].body != b by {
        assert(!live[i].collided);
        assert(marked.contains(live[i]));
        let k = choose|k: int| 0 <= k < marked.len() && marked[k] == live[i];
        assert(v.bullets[k].body != a && v.bullets[k].body != b);
    }
}

/// Running the death pass twice is the same as running it once: an enemy
/// transitions to `Destroyed` at most once, and the score is awarded for
/// each destruction exactly once, however many further passes (or further
/// hits on the corpse) follow.
pub proof fn lemma_enemy_death_idempotent(v: GameSessionView)
    ensures
        spec_handle_enemy_death(spec_handle_enemy_death(v)) == spec_handle_enemy_death(v),
{
    match v.spawner {
        None => {},
        Some(sp) => {
            let v1 = spec_handle_enemy_death(v);
            assert forall|i: int| 0 <= i < v1.enemies.len() implies !spec_newly_dead(
                #[trigger] v1.enemies[i],
            ) by {
                assert(v1.enemies[i] == spec_settled(v.enemies[i]));
            }
            lemma_count_newly_dead_none(v1.enemies);
            assert(spec_settle_dead(v1.enemies) =~= v1.enemies);
            assert(spec_handle_enemy_death(v1) =~= v1);
        },
    }
}

proof fn lemma_count_newly_dead_none(s: Seq<Enemy>)
    requires
        forall|i: int| 0 <= i < s.len() ==> !spec_newly_dead(#[trigger] s[i]),
    ensures
        spec_count_newly_dead(s) == 0,
    decreases s.len(),
{
    if s.len() > 0 {
        assert forall|i: int| 0 <= i < s.drop_last().len() implies !spec_newly_dead(
            #[trigger] s.drop_last()[i],
        ) by {
            assert(s.drop_last()[i] == s[i]);
        }
        lemma_count_newly_dead_none(s.drop_last());
        assert(!spec_newly_dead(s.last()));
    }
}

} // verus!
