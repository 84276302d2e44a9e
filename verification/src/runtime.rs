//! The clock and background-task handles the request bookkeeping touches.
use vstd::prelude::*;
use std::time::Instant;

verus! {

/// A point in monotonic time (`std::time::Instant`).
#[verifier::external_type_specification]
#[verifier::external_body]
pub struct ExInstant(std::time::Instant);

/// A handle that can cancel a spawned background task (`tokio::task::AbortHandle`).
#[verifier::external_type_specification]
#[verifier::external_body]
pub struct ExAbortHandle(tokio::task::AbortHandle);

/// The current time, from `std::time::Instant::now`. Nothing is stated of the value:
/// it depends on the clock.
#[verifier::external_body]
pub(crate) fn now() -> Instant {
    std::time::Instant::now()
}

/// Asks the runtime to cancel the task behind `handle` (`tokio::task::AbortHandle::abort`).
/// The call changes nothing that the library models; nothing is stated.
#[verifier::external_body]
pub(crate) fn abort_task(handle: &tokio::task::AbortHandle) {
    handle.abort();
}

/// `Duration` is `Copy`: its `clone` gives back the same value. (The derived `Clone` of
/// `Action`, whose `SeekTo` carries a `Duration`, calls it.)
pub assume_specification[<std::time::Duration as Clone>::clone](d: &std::time::Duration) -> (r: std::time::Duration)
    ensures r == *d,
;

} // verus!
