//! The wall clock, read in whole seconds since the Unix epoch, as the
//! store's `created_at` and `updated_at` columns record it.

use std::time::{Duration, SystemTime, SystemTimeError};
use vstd::prelude::*;

verus! {

#[verifier::external_type_specification]
#[verifier::external_body]
pub struct ExSystemTime(SystemTime);

#[verifier::external_type_specification]
#[verifier::external_body]
pub struct ExSystemTimeError(SystemTimeError);

/// `SystemTime::now`: the current time of the system clock. It depends on
/// the machine and the moment of the call, so nothing is stated of it.
#[verifier::external_body]
fn system_now() -> SystemTime {
    SystemTime::now()
}

/// `SystemTime::duration_since(UNIX_EPOCH)`: how long after the epoch `t`
/// lies, or an error carrying how long before it `t` lies. Nothing is
/// stated of the values, which depend on `t` only through the opaque
/// `SystemTime`.
#[verifier::external_body]
fn since_epoch(t: &SystemTime) -> Result<Duration, SystemTimeError> {
    t.duration_since(std::time::UNIX_EPOCH)
}

/// `SystemTimeError::duration`: how far the later time lay past the earlier
/// one. `Duration` is opaque here, so nothing is stated of it.
#[verifier::external_body]
fn error_duration(e: &SystemTimeError) -> Duration {
    e.duration()
}

/// `Duration::as_secs`: the whole seconds of `d`. `Duration` is opaque
/// here, so nothing is stated beyond the type.
#[verifier::external_body]
fn whole_seconds(d: &Duration) -> u64 {
    d.as_secs()
}

/// Seconds as a signed count, saturating at `i64::MAX`.
pub fn saturate_seconds(secs: u64) -> (r: i64)
    ensures
        r == if secs <= i64::MAX { secs as int } else { i64::MAX as int },
{
    if secs <= i64::MAX as u64 {
        secs as i64
    } else {
        i64::MAX
    }
}

/// The signed seconds a clock reading stands for: `Ok(s)` is a time `s`
/// whole seconds after the Unix epoch, `Err(s)` one `s` whole seconds
/// before it. Counts beyond `i64::MAX` saturate.
pub open spec fn signed_seconds(reading: Result<u64, u64>) -> int {
    match reading {
        Ok(s) => if s <= i64::MAX { s as int } else { i64::MAX as int },
        Err(s) => if s <= i64::MAX { -(s as int) } else { -(i64::MAX as int) },
    }
}

/// The signed seconds of a clock reading.
pub fn seconds_of_reading(reading: Result<u64, u64>) -> (r: i64)
    ensures
        r == signed_seconds(reading),
{
    match reading {
        Ok(s) => saturate_seconds(s),
        Err(s) => 0 - saturate_seconds(s),
    }
}

/// The current time in whole seconds since the Unix epoch, negative for a
/// clock set before the epoch. Which reading the clock gives depends on the
/// machine and the moment, so the clause states only that the result is the
/// signed seconds of some reading.
pub fn unix_now() -> (t: i64)
    ensures
        exists|reading: Result<u64, u64>| t == signed_seconds(reading),
{
    let now = system_now();
    let reading: Result<u64, u64> = match since_epoch(&now) {
        Ok(d) => Ok(whole_seconds(&d)),
        Err(e) => Err(whole_seconds(&error_duration(&e))),
    };
    let t = seconds_of_reading(reading);
    assert(t == signed_seconds(reading));
    t
}

} // verus!
