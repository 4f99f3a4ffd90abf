//! The readings of the clock that a launch result carries: how long the
//! launch took and when it ended. No reading can be foretold, so no contract
//! promises anything of one; how a reading is written as a timestamp is a
//! matter of the reading alone.

use vstd::prelude::*;
use vstd::string::*;

verus! {

/// A point in time of `std::time`. Nothing of its inside is visible to the
/// verifier.
#[verifier::external_type_specification]
#[verifier::external_body]
pub struct ExInstant(std::time::Instant);

/// Calls `std::time::Instant::elapsed` and gives the time in milliseconds.
#[verifier::external_body]
pub(crate) fn elapsed_millis(start: &std::time::Instant) -> u128 {
    start.elapsed().as_millis()
}

/// A reading of the system clock of `std::time`. Nothing of its inside is
/// visible to the verifier.
#[verifier::external_type_specification]
#[verifier::external_body]
pub struct ExSystemTime(std::time::SystemTime);

/// Calls `std::time::SystemTime::now`.
#[verifier::external_body]
pub(crate) fn system_time_now() -> std::time::SystemTime {
    std::time::SystemTime::now()
}

/// Calls `std::time::SystemTime::duration_since` with the Unix epoch, and
/// gives the whole seconds and the nanoseconds beside them, or nothing for
/// a time before the epoch.
#[verifier::external_body]
pub(crate) fn since_unix_epoch(time: &std::time::SystemTime) -> Option<(u64, u32)> {
    match time.duration_since(std::time::UNIX_EPOCH) {
        Ok(since) => Some((since.as_secs(), since.subsec_nanos())),
        Err(_) => None,
    }
}

/// What `chrono::DateTime::to_rfc3339` writes for the time in UTC that
/// `chrono::DateTime::from_timestamp` makes of seconds and nanoseconds
/// since the Unix epoch, or nothing where it makes no time of them.
pub uninterp spec fn rfc3339_text(secs: i64, nanos: u32) -> Option<Seq<char>>;

/// Calls `chrono::DateTime::from_timestamp` and, where that gives a time,
/// `chrono::DateTime::to_rfc3339` on it. The contract claims that the
/// outcome depends on the two numbers alone; neither call panics.
#[verifier::external_body]
pub(crate) fn rfc3339_utc(secs: i64, nanos: u32) -> (r: Option<String>)
    ensures
        r.deep_view() == rfc3339_text(secs, nanos),
{
    match chrono::DateTime::from_timestamp(secs, nanos) {
        Some(time) => Some(time.to_rfc3339()),
        None => None,
    }
}

/// The timestamp of a reading of the clock: nothing for a clock that stands
/// before the epoch or beyond the times that can be written.
pub open spec fn timestamp_text(reading: Option<(u64, u32)>) -> Option<Seq<char>> {
    match reading {
        Some((secs, nanos)) => if secs <= i64::MAX {
            rfc3339_text(secs as i64, nanos)
        } else {
            None
        },
        None => None,
    }
}

/// Writes a reading of the clock, in seconds and nanoseconds since the Unix
/// epoch, as a timestamp in UTC.
pub fn timestamp_of(reading: Option<(u64, u32)>) -> (r: Option<String>)
    ensures
        r.deep_view() == timestamp_text(reading),
{
    match reading {
        Some((secs, nanos)) => {
            if secs <= 0x7fff_ffff_ffff_ffff {
                rfc3339_utc(secs as i64, nanos)
            } else {
                None
            }
        },
        None => None,
    }
}

} // verus!
