use vstd::prelude::*;

verus! {

#[verifier::external_type_specification]
#[verifier::external_body]
pub struct ExInstant(std::time::Instant);

/// Relies on `Instant::now`: a reading of the monotonic clock, used as the
/// origin that later readings are measured from. Nothing is known of its value.
pub assume_specification[ std::time::Instant::now ]() -> std::time::Instant;

/// Relies on `Instant::elapsed`: the time since the instant. It depends on
/// when it is called, so nothing is promised of it.
pub assume_specification[ std::time::Instant::elapsed ](i: &std::time::Instant) -> core::time::Duration;

/// Relies on `Duration::as_millis`: the whole milliseconds of a duration.
/// The duration is opaque here, so nothing is promised of the count.
pub assume_specification[ core::time::Duration::as_millis ](d: &core::time::Duration) -> u128;

/// The milliseconds that have passed since `origin`, as a `u64`
/// (saturating at `u64::MAX`, which no real clock reaches).
pub(crate) fn millis_since(origin: &std::time::Instant) -> u64 {
    let d = origin.elapsed();
    let ms: u128 = d.as_millis();
    if ms > u64::MAX as u128 {
        u64::MAX
    } else {
        ms as u64
    }
}

} // verus!
