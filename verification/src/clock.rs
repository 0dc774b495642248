//! The system clock and durations, through `std::time`.

use vstd::prelude::*;

use std::time::{Duration, SystemTime, UNIX_EPOCH};

verus! {

#[verifier::external_type_specification]
#[verifier::external_body]
pub struct ExSystemTime(SystemTime);

/// What `Duration::from_secs` gives for a number of seconds.
pub uninterp spec fn duration_of_secs(secs: u64) -> Duration;

/// `Duration::from_secs`: the duration of the given number of whole seconds.
#[verifier::external_body]
pub(crate) fn duration_from_secs(secs: u64) -> (d: Duration)
    ensures
        d == duration_of_secs(secs),
{
    Duration::from_secs(secs)
}

/// `SystemTime::now`: the current time; nothing is stated of it.
#[verifier::external_body]
pub(crate) fn system_now() -> SystemTime {
    SystemTime::now()
}

/// `SystemTime::duration_since(UNIX_EPOCH)` in whole seconds, with a time
/// before the epoch read as zero seconds (`unwrap_or_default`).
/// Nothing is stated of the value.
#[verifier::external_body]
pub(crate) fn unix_secs(t: &SystemTime) -> u64 {
    t.duration_since(UNIX_EPOCH).unwrap_or_default().as_secs()
}

/// The current time in whole seconds since the Unix epoch; nothing is known
/// of the value.
pub(crate) fn now_unix_secs() -> u64 {
    let t = system_now();
    unix_secs(&t)
}

} // verus!
