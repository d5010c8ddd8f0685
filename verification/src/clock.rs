//! Readings of the monotonic clock.
use vstd::prelude::*;

verus! {

#[verifier::external_type_specification]
#[verifier::external_body]
pub struct ExInstant(std::time::Instant);

/// Calls `Instant::now`: a reading of the monotonic clock. Nothing is
/// stated of it: it is the time.
#[verifier::external_body]
pub(crate) fn clock_now() -> std::time::Instant {
    std::time::Instant::now()
}

/// Calls `Instant::duration_since`: the time from `earlier` to `later`
/// (zero when `earlier` is the later one). Nothing is stated: both are
/// clock readings.
#[verifier::external_body]
fn duration_between(later: &std::time::Instant, earlier: &std::time::Instant) -> std::time::Duration {
    later.duration_since(*earlier)
}

/// Calls `Duration::as_millis`: the whole milliseconds of `d`, kept to 64
/// bits. Nothing is stated: the duration is opaque here.
#[verifier::external_body]
fn whole_millis(d: &std::time::Duration) -> u64 {
    d.as_millis() as u64
}

/// Calls `Duration::as_nanos`: the nanoseconds of `d`, exactly. Nothing
/// is stated: the duration is opaque here.
#[verifier::external_body]
fn whole_nanos(d: &std::time::Duration) -> u128 {
    d.as_nanos()
}

/// Nanoseconds from `earlier` to `later` (zero when `earlier` is the later
/// one): the exact length of that duration.
pub(crate) fn nanos_between(later: &std::time::Instant, earlier: &std::time::Instant) -> u128 {
    let d = duration_between(later, earlier);
    whole_nanos(&d)
}

/// Whole milliseconds from `earlier` to `later` (zero when `earlier` is
/// the later one).
pub(crate) fn millis_between(later: &std::time::Instant, earlier: &std::time::Instant) -> u64 {
    let d = duration_between(later, earlier);
    whole_millis(&d)
}

} // verus!
