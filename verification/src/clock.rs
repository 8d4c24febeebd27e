use vstd::prelude::*;

verus! {

/// `std::time::Instant`, carried through as an opaque moment.
#[verifier::external_type_specification]
#[verifier::external_body]
pub struct ExInstant(std::time::Instant);

/// Calls `std::time::Instant::now`. The moment it returns depends on the
/// clock, so nothing is claimed of it.
#[verifier::external_body]
pub(crate) fn now() -> std::time::Instant {
    std::time::Instant::now()
}

/// Calls `std::time::Instant::elapsed`: the time that has passed since
/// `since`. It depends on the clock, so nothing is claimed of it.
#[verifier::external_body]
pub(crate) fn elapsed(since: &std::time::Instant) -> std::time::Duration {
    since.elapsed()
}

/// Calls `std::time::Duration::as_nanos`: the whole nanoseconds in `d`. A
/// `Duration` is opaque here and the only durations the library holds come
/// from the clock, so nothing is stated of the number.
#[verifier::external_body]
pub(crate) fn as_nanos(d: &std::time::Duration) -> u128 {
    d.as_nanos()
}

} // verus!
