//! The wall clock.

use std::time::Duration;
use std::time::SystemTime;
use std::time::UNIX_EPOCH;
use vstd::prelude::*;

verus! {

/// `std::time::SystemTime`: a point in time as the system's clock gives it.
#[verifier::external_type_specification]
#[verifier::external_body]
pub struct ExSystemTime(std::time::SystemTime);

/// `SystemTime::now`: the time at the moment of the call. Nothing is claimed
/// of it.
#[verifier::external_body]
pub(crate) fn system_now() -> (now: SystemTime) {
    SystemTime::now()
}

/// `SystemTime::duration_since` with the Unix epoch: the time that has passed
/// since the epoch, or `None` where the clock stands before it. Nothing is
/// claimed of the result.
#[verifier::external_body]
pub(crate) fn since_unix_epoch(time: &SystemTime) -> (elapsed: Option<Duration>) {
    time.duration_since(UNIX_EPOCH).ok()
}

/// `Duration::as_secs`: the whole seconds of a duration. Nothing is claimed
/// of the number.
#[verifier::external_body]
pub(crate) fn whole_seconds(elapsed: &Duration) -> (seconds: u64) {
    elapsed.as_secs()
}

/// `Duration::subsec_nanos`: the part of a duration below one second, in
/// nanoseconds, which std documents to be less than one second.
#[verifier::external_body]
pub(crate) fn subsecond_nanos(elapsed: &Duration) -> (nanos: u32)
    ensures
        nanos < 1_000_000_000,
{
    elapsed.subsec_nanos()
}

} // verus!
