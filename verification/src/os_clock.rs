use vstd::prelude::*;

use std::time::{Duration, SystemTime};

verus! {

/// A point in time reported by the operating system clock.
#[verifier::external_type_specification]
#[verifier::external_body]
pub struct ExSystemTime(SystemTime);

/// Reads the operating system clock with `SystemTime::now`; the reading depends
/// on the clock and nothing is said of it.
#[verifier::external_body]
pub(crate) fn system_time_now() -> SystemTime {
    SystemTime::now()
}

/// Returns `SystemTime::duration_since(UNIX_EPOCH)` of a reading, or `None` when
/// the reading lies before the epoch; nothing more is said of the duration.
#[verifier::external_body]
pub(crate) fn elapsed_since_unix_epoch(time: &SystemTime) -> Option<Duration> {
    time.duration_since(std::time::UNIX_EPOCH).ok()
}

/// Returns `Duration::as_millis`, the whole milliseconds of a duration; nothing is
/// said of its value.
#[verifier::external_body]
pub(crate) fn duration_as_millis(duration: &Duration) -> u128 {
    duration.as_millis()
}

/// Returns `Duration::as_secs`, the whole seconds of a duration; nothing is said
/// of its value.
#[verifier::external_body]
pub(crate) fn duration_as_secs(duration: &Duration) -> u64 {
    duration.as_secs()
}

/// Returns `Duration::subsec_nanos`, the fractional part of a duration in
/// nanoseconds, which std documents to be less than one billion.
#[verifier::external_body]
pub(crate) fn duration_subsec_nanos(duration: &Duration) -> (nanos: u32)
    ensures
        nanos < 1_000_000_000,
{
    duration.subsec_nanos()
}

} // verus!
