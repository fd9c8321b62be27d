//! Core logic of a small top-down arena shooter: the screen state machine,
//! the wave director that paces enemy spawning and stage progression, combat
//! resolution from collision notifications, and actor lifecycle bookkeeping.
//!
//! Rendering, physics simulation, audio playback and input reading live
//! outside this crate; the functions here take plain values (tick clock
//! readings in milliseconds, body identifiers, input flags) and return the
//! decisions the engine should act on.

pub mod clock;
pub mod combat;
pub mod enemies;
pub mod player;
pub mod rng;
pub mod session;
pub mod sounds;
pub mod states;
pub mod waves;
