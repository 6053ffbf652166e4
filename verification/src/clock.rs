//! Monotonic time stamps.  Reading the clock depends on when it is read, so nothing is
//! stated of the values; decisions that use them take the elapsed milliseconds as input.
use vstd::prelude::*;

verus! {

#[verifier::external_type_specification]
#[verifier::external_body]
pub struct ExInstant(std::time::Instant);

/// `Instant::now()`.
#[verifier::external_body]
pub(crate) fn instant_now() -> std::time::Instant {
    std::time::Instant::now()
}

/// Whole milliseconds elapsed since `since` (`Instant::elapsed().as_millis()`).
#[verifier::external_body]
pub(crate) fn millis_since(since: &std::time::Instant) -> u128 {
    since.elapsed().as_millis()
}

/// `Duration::from_millis`.
#[verifier::external_body]
fn duration_from_millis(ms: u64) -> std::time::Duration {
    std::time::Duration::from_millis(ms)
}

/// `Instant::checked_sub`: `None` where the clock cannot represent the earlier instant.
#[verifier::external_body]
fn instant_checked_sub(t: &std::time::Instant, d: std::time::Duration) -> Option<std::time::Instant> {
    t.checked_sub(d)
}

/// An instant `ms` milliseconds before now, or now when the clock cannot go back that far.
pub(crate) fn instant_ms_ago(ms: u64) -> std::time::Instant {
    let now = instant_now();
    match instant_checked_sub(&now, duration_from_millis(ms)) {
        Some(earlier) => earlier,
        None => now,
    }
}

} // verus!
