//! The machine's clocks.
//!
//! Nothing is claimed of what a clock returns: whatever is built on a reading
//! is verified for every value of it.

use std::time::{Duration, Instant, SystemTime, UNIX_EPOCH};
use vstd::prelude::*;

verus! {

/// `std::time::Instant`, a reading of the monotonic clock. Its contents are
/// not visible to the verifier.
#[verifier::external_type_specification]
#[verifier::external_body]
pub struct ExInstant(Instant);

/// `std::time::SystemTime`, a reading of the wall clock. Its contents are
/// not visible to the verifier.
#[verifier::external_type_specification]
#[verifier::external_body]
pub struct ExSystemTime(SystemTime);

/// Calls `Instant::now`. Trusted; nothing is claimed of the reading.
#[verifier::external_body]
pub(crate) fn instant_now() -> Instant {
    Instant::now()
}

/// Calls `SystemTime::now`. Trusted; nothing is claimed of the reading.
#[verifier::external_body]
pub(crate) fn system_time_now() -> SystemTime {
    SystemTime::now()
}

/// Calls `SystemTime::duration_since` with `UNIX_EPOCH`, and gives `None`
/// where it reports that `time` lies before the epoch. Trusted; nothing is
/// claimed of the duration.
#[verifier::external_body]
pub(crate) fn since_unix_epoch(time: &SystemTime) -> Option<Duration> {
    time.duration_since(UNIX_EPOCH).ok()
}

/// Calls `Duration::as_secs`. Trusted; nothing is claimed of the number.
#[verifier::external_body]
pub(crate) fn whole_seconds(duration: &Duration) -> u64 {
    duration.as_secs()
}

/// The wall clock's reading in whole seconds since the Unix epoch, or zero
/// where the clock stands before the epoch.
pub fn epoch_time_secs() -> u64 {
    let now = system_time_now();
    let elapsed = match since_unix_epoch(&now) {
        Some(elapsed) => Some(whole_seconds(&elapsed)),
        None => None,
    };
    seconds_or_zero(elapsed)
}

/// The timestamp for a clock reading: the whole seconds that the clock
/// stands after the Unix epoch, and zero for a clock that stands before it.
pub fn seconds_or_zero(elapsed: Option<u64>) -> (secs: u64)
    ensures
        secs == match elapsed {
            Some(seconds) => seconds,
            None => 0,
        },
{
    match elapsed {
        Some(seconds) => seconds,
        None => 0,
    }
}

} // verus!
