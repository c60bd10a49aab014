use std::time::{Duration, SystemTime, SystemTimeError};
use vstd::prelude::*;

verus! {

/// `std::time::SystemTime`, a reading of the wall clock, carried through
/// unopened.
#[verifier::external_type_specification]
#[verifier::external_body]
pub struct ExSystemTime(std::time::SystemTime);

/// `std::time::SystemTime`, a reading of the wall clock, carried through
/// unopened.
/// `std::time::SystemTimeError`, the error of a reading that lies before the
/// moment it is measured from.
#[verifier::external_type_specification]
#[verifier::external_body]
pub struct ExSystemTimeError(std::time::SystemTimeError);

/// `SystemTime::now`: the wall clock's present reading. Nothing is claimed
/// of it; two readings need not agree or even increase.
#[verifier::external_body]
fn wall_clock() -> SystemTime {
    SystemTime::now()
}

/// `SystemTime::duration_since` against `SystemTime::UNIX_EPOCH`: how far
/// `reading` lies after the epoch, or an error if it lies before. Nothing is
/// claimed of which.
#[verifier::external_body]
fn since_epoch(reading: &SystemTime) -> Result<Duration, SystemTimeError> {
    reading.duration_since(SystemTime::UNIX_EPOCH)
}

/// `Duration::as_secs`: the whole seconds in `span`. The span is opaque
/// here, so nothing is claimed of the count.
#[verifier::external_body]
fn whole_seconds(span: &Duration) -> u64 {
    span.as_secs()
}

/// The wall clock in whole seconds since the Unix epoch. A clock that has
/// been set to before the epoch reads as 0.
pub(crate) fn unix_now() -> u64 {
    let reading = wall_clock();
    match since_epoch(&reading) {
        Ok(span) => whole_seconds(&span),
        Err(_) => 0,
    }
}

} // verus!
