//! The wall clock, in whole seconds since the Unix epoch.

use std::time::{Duration, SystemTime, SystemTimeError, UNIX_EPOCH};
use vstd::prelude::*;

verus! {

/// A reading of the system clock. Its contents are not visible to the
/// verifier.
#[verifier::external_type_specification]
#[verifier::external_body]
pub struct ExSystemTime(std::time::SystemTime);

/// What the clock library says of a reading that lies before the moment it
/// was compared with. Its contents are not visible to the verifier.
#[verifier::external_type_specification]
#[verifier::external_body]
pub struct ExSystemTimeError(std::time::SystemTimeError);

/// `SystemTime::now`: reads the system clock. Nothing is claimed about the
/// reading: two calls may differ in either direction.
#[verifier::external_body]
fn read_clock() -> (t: SystemTime) {
    SystemTime::now()
}

/// `SystemTime::duration_since`, against `UNIX_EPOCH`: the time that has
/// passed since the epoch, or an error for a reading that lies before it.
/// Nothing is claimed about the result.
#[verifier::external_body]
fn since_epoch(t: &SystemTime) -> (d: Result<Duration, SystemTimeError>) {
    t.duration_since(UNIX_EPOCH)
}

/// `Duration::as_secs`: the whole seconds of a duration. Nothing is claimed
/// about the result.
#[verifier::external_body]
fn whole_seconds(d: &Duration) -> (s: u64) {
    d.as_secs()
}

/// A count of seconds since the epoch as a timestamp.
pub open spec fn timestamp_of(seconds: u64) -> Option<i64> {
    if seconds <= i64::MAX {
        Some(seconds as i64)
    } else {
        None
    }
}

/// Turns a count of seconds since the epoch into a timestamp. `None` means
/// that the count does not fit into 64 signed bits.
pub fn to_timestamp(seconds: u64) -> (r: Option<i64>)
    ensures
        r == timestamp_of(seconds),
{
    if seconds <= i64::MAX as u64 {
        Some(seconds as i64)
    } else {
        None
    }
}

/// Reads the wall clock as a timestamp. `None` means that the clock stands
/// before the epoch, or further from it than a timestamp can say. A reading
/// is never negative; nothing else is known about it.
pub fn unix_timestamp() -> (r: Option<i64>)
    ensures
        r matches Some(now) ==> now >= 0,
{
    let reading = read_clock();
    match since_epoch(&reading) {
        Ok(passed) => to_timestamp(whole_seconds(&passed)),
        Err(_) => None,
    }
}

} // verus!
