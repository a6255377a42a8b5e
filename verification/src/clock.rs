//! The wall clock, read as milliseconds since the Unix epoch.

use std::time::{Duration, SystemTime, SystemTimeError, UNIX_EPOCH};
use vstd::prelude::*;

verus! {

/// A point of the system clock, as `std::time` holds it.
#[verifier::external_type_specification]
#[verifier::external_body]
pub struct ExSystemTime(SystemTime);

/// The failure of `SystemTime::duration_since`.
#[verifier::external_type_specification]
#[verifier::external_body]
pub struct ExSystemTimeError(SystemTimeError);

/// The system clock's reading, by `SystemTime::now`. Nothing is promised of
/// it: two readings may differ in either direction.
#[verifier::external_body]
fn system_now() -> SystemTime {
    SystemTime::now()
}

/// The time from the Unix epoch to `time`, by `SystemTime::duration_since`;
/// an error where `time` lies before the epoch.
#[verifier::external_body]
fn since_epoch(time: &SystemTime) -> Result<Duration, SystemTimeError> {
    time.duration_since(UNIX_EPOCH)
}

/// The whole milliseconds of a duration, by `Duration::as_millis`.
#[verifier::external_body]
fn whole_millis(duration: &Duration) -> u128 {
    duration.as_millis()
}

/// Reads the clock: the milliseconds since the Unix epoch, cut to 64 bits, or
/// nothing where the clock reads earlier than the epoch.
pub(crate) fn unix_millis() -> Option<u64> {
    let now = system_now();
    let elapsed = match since_epoch(&now) {
        Ok(elapsed) => Some(whole_millis(&elapsed)),
        Err(_) => None,
    };
    reading(elapsed)
}

/// The reading that the clock's answer stands for: the milliseconds since
/// the epoch cut to their low 64 bits, or nothing where the clock gave none.
pub(crate) fn reading(elapsed: Option<u128>) -> (r: Option<u64>)
    ensures
        r == match elapsed {
            Some(millis) => Some((millis % 0x1_0000_0000_0000_0000) as u64),
            None => None,
        },
{
    match elapsed {
        Some(millis) => {
            let low = #[verifier::truncate] (millis as u64);
            assert(low == millis % 0x1_0000_0000_0000_0000) by (bit_vector)
                requires
                    low == millis as u64,
            ;
            Some(low)
        },
        None => None,
    }
}

} // verus!
