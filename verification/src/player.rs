use vstd::prelude::*;

verus! {

/// Health the player starts with.
pub const PLAYER_START_HEALTH: i32 = 100;

/// Health lost by the player for each enemy contact.
pub const BITE_DAMAGE: i32 = 10;

/// Shells in a full load; the start value and the value a reload restores.
pub const FULL_SHELLS: i32 = 6;

/// Projectiles spawned by one shot.
pub const PELLETS_PER_SHOT: u64 = 5;

/// Delay from the gunshot to the cocking cue, in milliseconds.
pub const COCK_DELAY_MS: u64 = 300;

/// Delay from the gunshot to the shell-eject cue, in milliseconds.
pub const EJECT_DELAY_MS: u64 = 600;

/// The player character. `body` is the physics-body identifier the engine
/// reports in collision notifications.
#[derive(Clone, Copy, Debug, PartialEq, Eq, Structural)]
pub struct Player {
    pub body: u64,
    pub health: i32,
    pub shells: i32,
}

/// One projectile. `collided` is set on its first collision with anything
/// and marks it for removal on the next lifecycle pass.
#[derive(Clone, Copy, Debug, PartialEq, Eq, Structural)]
pub struct Bullet {
    pub body: u64,
    pub collided: bool,
}

} // verus!
