//! The wall clock, read as whole seconds since the Unix epoch. Nothing is
//! promised about the value: every decision that depends on the time is a
//! verified function of an explicit `now` argument elsewhere in the crate.

use std::time::{Duration, SystemTime, SystemTimeError};
use vstd::prelude::*;

verus! {

#[verifier::external_type_specification]
#[verifier::external_body]
pub struct ExSystemTime(std::time::SystemTime);

#[verifier::external_type_specification]
#[verifier::external_body]
pub struct ExSystemTimeError(std::time::SystemTimeError);

/// `SystemTime::now`: the current wall-clock reading; no property of it is claimed.
#[verifier::external_body]
fn system_time_now() -> SystemTime {
    SystemTime::now()
}

/// `SystemTime::duration_since(UNIX_EPOCH)`: the elapsed time, or an error when
/// the clock reads before 1970; no property of either outcome is claimed.
#[verifier::external_body]
fn since_unix_epoch(t: &SystemTime) -> Result<Duration, SystemTimeError> {
    t.duration_since(std::time::UNIX_EPOCH)
}

/// `Duration::as_secs`: the whole seconds of a duration; no property is claimed.
#[verifier::external_body]
fn whole_seconds(d: &Duration) -> u64 {
    d.as_secs()
}

/// Seconds since the Unix epoch, or 0 when the clock reads before it.
pub fn now_unix() -> u64 {
    match since_unix_epoch(&system_time_now()) {
        Ok(elapsed) => whole_seconds(&elapsed),
        Err(_) => 0,
    }
}

} // verus!
