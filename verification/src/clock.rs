//! Reading the clocks: the monotonic clock for uptimes, and the system clock
//! for the time at which a log message was made.
use vstd::prelude::*;
use std::time::{Duration, Instant, SystemTime};

verus! {

/// A point in monotonic time (`std::time::Instant`).
#[verifier::external_type_specification]
#[verifier::external_body]
pub struct ExInstant(Instant);

/// A reading of the system clock (`std::time::SystemTime`).
#[verifier::external_type_specification]
#[verifier::external_body]
pub struct ExSystemTime(SystemTime);

/// The current instant (`Instant::now`). It depends on the clock: nothing is
/// stated of it.
#[verifier::external_body]
pub(crate) fn instant_now() -> Instant {
    Instant::now()
}

/// The time elapsed since `instant` (`Instant::elapsed`; zero if the clock
/// reads earlier). It depends on the clock: nothing is stated of it.
#[verifier::external_body]
pub(crate) fn instant_elapsed(instant: &Instant) -> Duration {
    instant.elapsed()
}

/// The current reading of the system clock (`SystemTime::now`). It depends on
/// the clock: nothing is stated of it.
#[verifier::external_body]
pub(crate) fn system_now() -> SystemTime {
    SystemTime::now()
}

/// The time from the Unix epoch to `time` (`SystemTime::duration_since` with
/// `UNIX_EPOCH`), or `None` where `time` lies before the epoch. The reading is
/// not visible to the verifier, so which of the two comes back is not stated.
#[verifier::external_body]
pub(crate) fn since_unix_epoch(time: &SystemTime) -> Option<Duration> {
    time.duration_since(std::time::UNIX_EPOCH).ok()
}

/// The whole seconds of a duration (`Duration::as_secs`). The duration's
/// contents are not visible to the verifier, so the number is not stated.
#[verifier::external_body]
pub(crate) fn duration_secs(duration: &Duration) -> u64 {
    duration.as_secs()
}

/// The fractional part of a duration in whole milliseconds
/// (`Duration::subsec_millis`), which is less than one thousand.
#[verifier::external_body]
pub(crate) fn duration_subsec_millis(duration: &Duration) -> (millis: u32)
    ensures
        millis < 1000,
{
    duration.subsec_millis()
}

/// The fractional part of a duration in whole nanoseconds
/// (`Duration::subsec_nanos`), which is less than one billion.
#[verifier::external_body]
pub(crate) fn duration_subsec_nanos(duration: &Duration) -> (nanos: u32)
    ensures
        nanos < 1_000_000_000,
{
    duration.subsec_nanos()
}

/// A point in time as the system clock gives it: whole seconds since the Unix
/// epoch (1970-01-01 00:00:00 UTC) and the nanoseconds past that second.
#[derive(Debug, Clone, Copy, PartialEq, Eq, Structural)]
pub struct Timestamp {
    pub secs: u64,
    pub nanos: u32,
}

/// The current time, or `None` where the system clock reads before the Unix
/// epoch. Its nanoseconds are below one billion.
pub fn now_timestamp() -> (now: Option<Timestamp>)
    ensures
        now matches Some(t) ==> t.nanos < 1_000_000_000,
{
    let now = system_now();
    match since_unix_epoch(&now) {
        Some(elapsed) => Some(Timestamp { secs: duration_secs(&elapsed), nanos: duration_subsec_nanos(&elapsed) }),
        None => None,
    }
}

} // verus!
