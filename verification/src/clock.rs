//! The monotonic-clock collaborator: opaque time points and elapsed-time
//! readings. Every result depends on the clock, so the contracts state
//! nothing of the values; the verified logic takes them as arguments.

use vstd::prelude::*;

verus! {

#[verifier::external_type_specification]
#[verifier::external_body]
pub struct ExInstant(std::time::Instant);

/// Relies on std::time::Instant::now: the current point of the monotonic
/// clock.
#[verifier::external_body]
pub fn now() -> std::time::Instant {
    std::time::Instant::now()
}

/// Relies on std::time::Instant::elapsed: whole seconds since `point`,
/// per its documentation never negative.
#[verifier::external_body]
pub fn elapsed_secs(point: &std::time::Instant) -> u64 {
    point.elapsed().as_secs()
}

/// Relies on std::time::Instant::checked_add and Instant::elapsed:
/// nanoseconds elapsed since `grace_secs` seconds after `point`, zero while
/// that moment is still in the future; `point` itself is used unshifted in
/// the degenerate case where the shift cannot be represented.
#[verifier::external_body]
pub fn elapsed_after_nanos(point: &std::time::Instant, grace_secs: u64) -> u128 {
    let shifted = point
        .checked_add(std::time::Duration::from_secs(grace_secs))
        .unwrap_or(*point);
    shifted.elapsed().as_nanos()
}

} // verus!
