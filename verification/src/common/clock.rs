//! The wall clock, read in whole milliseconds since the Unix epoch, and the
//! dates and times that rows of the database carry.

use crate::common::snowflake::wrap64;
use std::time::{Duration, SystemTime, SystemTimeError, UNIX_EPOCH};
use vstd::prelude::*;

verus! {

/// `std::time::SystemTime`: a reading of the system clock, carried along
/// without looking inside.
#[verifier::external_type_specification]
#[verifier::external_body]
pub struct ExSystemTime(SystemTime);

/// `std::time::SystemTimeError`: what std reports for a reading before the
/// moment it is measured from.
#[verifier::external_type_specification]
#[verifier::external_body]
pub struct ExSystemTimeError(SystemTimeError);

/// `chrono::NaiveDateTime`: a date and time of day as the database stores
/// it, carried along without looking inside.
#[verifier::external_type_specification]
#[verifier::external_body]
pub struct ExNaiveDateTime(chrono::NaiveDateTime);

/// `NaiveDateTime`'s `Clone`: a date and time is plain data, and its clone
/// is the same date and time.
pub assume_specification[ <chrono::NaiveDateTime as Clone>::clone ](
    at: &chrono::NaiveDateTime,
) -> (copy: chrono::NaiveDateTime)
    ensures
        copy == *at,
;

/// `SystemTime::now`: the current reading of the system clock. Nothing is
/// claimed of the value: the clock may be set, stepped or skewed at any time.
#[verifier::external_body]
fn system_now() -> SystemTime {
    SystemTime::now()
}

/// `SystemTime::duration_since` against `UNIX_EPOCH`: the time elapsed since
/// the Unix epoch, or the error that std reports for a reading before it.
/// Nothing is claimed of which of the two comes back.
#[verifier::external_body]
fn since_unix_epoch(at: &SystemTime) -> Result<Duration, SystemTimeError> {
    at.duration_since(UNIX_EPOCH)
}

/// `Duration::as_millis`: the whole milliseconds held by a duration. Nothing
/// is claimed of the number.
#[verifier::external_body]
fn whole_millis(elapsed: &Duration) -> u128 {
    elapsed.as_millis()
}

/// What a clock reading comes to: the time elapsed since the Unix epoch,
/// counted in whole units and kept to its low 64 bits, read as a signed
/// number; no reading where the clock stands before the epoch.
pub open spec fn reading(elapsed: Option<u128>) -> Option<i64> {
    match elapsed {
        Some(count) => Some(wrap64(count as int) as i64),
        None => None,
    }
}

/// The reading that the time elapsed since the Unix epoch comes to, where
/// `elapsed` is that time in whole units, or `None` for a clock that stands
/// before the epoch.
pub fn reading_of(elapsed: Option<u128>) -> (kept: Option<i64>)
    ensures
        kept == reading(elapsed),
{
    match elapsed {
        Some(count) => {
            let low: i64 = #[verifier::truncate] (count as i64);
            assert(low as int == wrap64(count as int)) by (bit_vector)
                requires
                    low == count as i64,
            ;
            Some(low)
        },
        None => None,
    }
}

/// Milliseconds since the Unix epoch according to the system clock, kept to
/// the low 64 bits. `None` when the clock reads a time before the epoch.
///
/// Two calls may return anything at all relative to one another; callers
/// decide what an unexpected reading means.
pub fn unix_millis() -> Option<i64> {
    let at = system_now();
    let elapsed: Option<u128> = match since_unix_epoch(&at) {
        Ok(elapsed) => Some(whole_millis(&elapsed)),
        Err(_) => None,
    };
    reading_of(elapsed)
}

} // verus!
