//! The wall clock, in whole seconds.

use std::time::{Duration, SystemTime, SystemTimeError, UNIX_EPOCH};
use vstd::prelude::*;

verus! {

/// `std::time::SystemTime`, a reading of the system clock; opaque here.
#[verifier::external_type_specification]
#[verifier::external_body]
pub struct ExSystemTime(SystemTime);

/// `std::time::SystemTimeError`, what `SystemTime::duration_since` gives for
/// a time that lies before the one it is measured from; opaque here.
#[verifier::external_type_specification]
#[verifier::external_body]
pub struct ExSystemTimeError(SystemTimeError);

/// `SystemTime::now`: the system clock's present reading. Two readings need
/// not agree, nor grow: nothing is claimed of the result.
#[verifier::external_body]
fn system_now() -> (now: SystemTime) {
    SystemTime::now()
}

/// `SystemTime::duration_since`, measured from `UNIX_EPOCH`: the time elapsed
/// since the epoch, or an error where `now` lies before it. Nothing is claimed
/// of the result.
#[verifier::external_body]
fn since_unix_epoch(now: &SystemTime) -> (elapsed: Result<Duration, SystemTimeError>) {
    now.duration_since(UNIX_EPOCH)
}

/// `Duration::as_secs`: the whole seconds of a duration. A duration is opaque
/// here, so nothing is claimed of the result.
pub assume_specification[ Duration::as_secs ](duration: &Duration) -> (secs: u64)
;

/// The seconds elapsed since the Unix epoch, by the system clock; zero where
/// the clock stands before the epoch.
pub(crate) fn current_timestamp() -> u64 {
    let now = system_now();
    match since_unix_epoch(&now) {
        Ok(elapsed) => elapsed.as_secs(),
        Err(_) => 0,
    }
}

} // verus!
