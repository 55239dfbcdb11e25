//! The two clocks of the engine: a monotonic one for turns and delays, and
//! the wall clock for the age of a battle.

use vstd::prelude::*;

verus! {

#[verifier::external_type_specification]
#[verifier::external_body]
pub struct ExInstant(std::time::Instant);

#[verifier::external_type_specification]
#[verifier::external_body]
pub struct ExSystemTime(std::time::SystemTime);

/// Calls `SystemTime::now`. Trusted: nothing is claimed of the time.
#[verifier::external_body]
fn system_time_now() -> (r: std::time::SystemTime) {
    std::time::SystemTime::now()
}

/// Calls `SystemTime::duration_since` with the Unix epoch. Trusted:
/// nothing is claimed of the nanoseconds that have passed; a time before
/// the epoch, for which the call fails, gives `None`.
#[verifier::external_body]
fn nanos_since_epoch(time: &std::time::SystemTime) -> (r: Option<u128>) {
    match time.duration_since(std::time::UNIX_EPOCH) {
        Ok(elapsed) => Some(elapsed.as_nanos()),
        Err(_) => None,
    }
}

/// What a reading of the wall clock counts as: the nanoseconds that were
/// read, and zero for a time before the Unix epoch, which has no reading.
pub open spec fn reading_nanos(reading: Option<u128>) -> u128 {
    match reading {
        Some(nanos) => nanos,
        None => 0,
    }
}

/// What a reading of the wall clock counts as: see `reading_nanos`.
pub fn nanos_or_zero(reading: Option<u128>) -> (r: u128)
    ensures
        r == reading_nanos(reading),
{
    match reading {
        Some(nanos) => nanos,
        None => 0,
    }
}

/// The time of the wall clock in nanoseconds since the Unix epoch; zero
/// where the clock is set before the epoch.
pub fn unix_nanos() -> (r: u128) {
    let now = system_time_now();
    nanos_or_zero(nanos_since_epoch(&now))
}

/// Calls `Instant::now`. Trusted: nothing is claimed of the instant.
#[verifier::external_body]
pub(crate) fn instant_now() -> (r: std::time::Instant) {
    std::time::Instant::now()
}

/// Calls `Instant::elapsed`. Trusted: nothing is claimed of the time that
/// has passed, given in nanoseconds.
#[verifier::external_body]
pub(crate) fn elapsed_nanos(start: &std::time::Instant) -> (r: u128) {
    start.elapsed().as_nanos()
}

/// A point in time as the engine sees it, in nanoseconds on each clock.
#[derive(Clone, Copy, Debug, PartialEq, Eq, Structural, Hash)]
pub struct Moment {
    /// Nanoseconds on the monotonic clock, since the clock was made.
    pub monotonic: u128,
    /// Nanoseconds on the wall clock, since the Unix epoch.
    pub wall: u128,
}

/// The source of the engine's time.
pub struct Clock {
    origin: std::time::Instant,
}

impl Clock {
    /// A clock whose monotonic time starts now.
    pub fn new() -> (r: Self) {
        Clock { origin: instant_now() }
    }

    /// Reads both clocks.
    pub fn now(&self) -> (r: Moment) {
        Moment { monotonic: elapsed_nanos(&self.origin), wall: unix_nanos() }
    }
}

} // verus!
