use vstd::prelude::*;

verus! {

#[verifier::external_type_specification]
#[verifier::external_body]
pub struct ExInstant(instant::Instant);

/// Relies on instant::Instant::now: an opaque reading of the monotonic clock.
#[verifier::external_body]
fn read_clock() -> (t: instant::Instant) {
    instant::Instant::now()
}

/// Relies on instant::Instant::saturating_duration_since (zero when `later`
/// is the earlier reading, never panics) and Duration::as_millis; whole
/// milliseconds, clamped into u64 range. Nothing can be promised of a clock
/// reading, so this has no contract.
#[verifier::external_body]
fn millis_between(earlier: &instant::Instant, later: &instant::Instant) -> (ms: u64) {
    let millis = later.saturating_duration_since(*earlier).as_millis();
    u64::try_from(millis).unwrap_or(u64::MAX)
}

/// The session's time source: an origin captured when the session begins,
/// and readings as whole milliseconds since that origin. Every gameplay
/// decision takes such a reading as a plain argument, so the logic is
/// verified for every value the clock could hand back.
pub struct GameClock {
    origin: instant::Instant,
}

impl GameClock {
    pub fn new() -> GameClock {
        GameClock { origin: read_clock() }
    }

    /// Milliseconds elapsed since this clock was created.
    pub fn now_ms(&self) -> u64 {
        millis_between(&self.origin, &read_clock())
    }
}

} // verus!
