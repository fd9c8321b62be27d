use vstd::prelude::*;
use vstd::arithmetic::div_mod::lemma_div_is_ordered;
use vstd::arithmetic::mul::lemma_mul_inequality;
use vstd::arithmetic::mul::lemma_mul_is_commutative;

verus! {

/// Arena bounds for enemy spawn positions, in world units.
pub const ARENA_MIN_X: i32 = -390;
pub const ARENA_MAX_X: i32 = 390;
pub const ARENA_MIN_Y: i32 = -290;
pub const ARENA_MAX_Y: i32 = 290;

/// Health a freshly spawned enemy starts with.
pub const ENEMY_START_HEALTH: i32 = 100;

/// Health lost by an enemy for each projectile hit.
pub const ENEMY_HIT_DAMAGE: i32 = 50;

/// Score awarded when an enemy is destroyed.
pub const KILL_SCORE: i32 = 50;

/// Seconds over which a stage's ideal population ramps from zero up to the
/// stage cap.
pub const RAMP_WINDOW_SECS: u64 = 30;

/// Pause between clearing a stage and the next stage's ramp, in milliseconds.
pub const STAGE_GAP_MS: u64 = 3000;

#[derive(Clone, Copy, Debug, PartialEq, Eq, Structural)]
pub enum EnemyState {
    /// Pursuing the player; can deal and take damage.
    Zombie,
    /// An inert corpse: it no longer collides or moves, but stays in the
    /// live set until the stage ends.
    Destroyed,
}

/// One enemy. `body` is the physics-body identifier the engine reports in
/// collision notifications; `x` and `y` are the spawn position.
#[derive(Clone, Copy, Debug, PartialEq, Eq, Structural)]
pub struct Enemy {
    pub body: u64,
    pub health: i32,
    pub state: EnemyState,
    pub x: i32,
    pub y: i32,
}

/// The per-session wave director state: the current stage, whether the
/// stage's spawn clock has started, when it (re)starts, and the score.
/// Times are clock readings in milliseconds.
#[derive(Clone, Copy, Debug, PartialEq, Eq, Structural)]
pub struct EnemySpawner {
    pub stage: u32,
    pub started: bool,
    pub start_time: u64,
    pub score: i32,
}

/// The hard population cap of a stage: ten enemies per stage number.
pub open spec fn spec_max_enemies(stage: u32) -> int {
    10 * (stage as int)
}

pub fn max_enemies(stage: u32) -> (cap: u64)
    ensures
        cap == spec_max_enemies(stage),
{
    10 * (stage as u64)
}

/// The population the wave director aims for `elapsed_ms` into a stage:
/// the stage cap scaled by elapsed whole seconds over the ramp window,
/// rounded up. The ramp is deliberately not clamped at the cap; the hard
/// cap alone limits the live population.
pub open spec fn spec_ideal_enemy_count(stage: u32, elapsed_ms: u64) -> int {
    (spec_max_enemies(stage) * ((elapsed_ms as int) / 1000) + (RAMP_WINDOW_SECS - 1)) / (RAMP_WINDOW_SECS as int)
}

pub fn ideal_enemy_count(stage: u32, elapsed_ms: u64) -> (count: u128)
    ensures
        count == spec_ideal_enemy_count(stage, elapsed_ms),
{
    let cap: u64 = max_enemies(stage);
    let secs: u64 = elapsed_ms / 1000;
    assert((cap as u128) * (secs as u128) + 29 <= u128::MAX) by (nonlinear_arith)
        requires
            cap <= u64::MAX,
            secs <= u64::MAX,
    ;
    ((cap as u128) * (secs as u128) + (RAMP_WINDOW_SECS as u128 - 1)) / (RAMP_WINDOW_SECS as u128)
}

/// For a fixed stage, the ideal population never decreases as time passes.
pub proof fn lemma_ideal_count_monotone(stage: u32, t1: u64, t2: u64)
    requires
        t1 <= t2,
    ensures
        spec_ideal_enemy_count(stage, t1) <= spec_ideal_enemy_count(stage, t2),
{
    let cap = spec_max_enemies(stage);
    let s1 = (t1 as int) / 1000;
    let s2 = (t2 as int) / 1000;
    let w = RAMP_WINDOW_SECS - 1;
    lemma_div_is_ordered(t1 as int, t2 as int, 1000);
    lemma_mul_inequality(s1, s2, cap);
    lemma_mul_is_commutative(s1, cap);
    lemma_mul_is_commutative(s2, cap);
    lemma_div_is_ordered(cap * s1 + w, cap * s2 + w, RAMP_WINDOW_SECS as int);
}

} // verus!
