//! The boundary to `std::time`: the timer of a run and sums of durations.
//!
//! Nothing in this file is proved; the contracts restate the documentation
//! of the standard library.

use std::time::{Duration, Instant};
use vstd::prelude::*;

verus! {

/// `std::time::Instant`, carried through as an opaque value.
#[verifier::external_type_specification]
#[verifier::external_body]
pub struct ExInstant(std::time::Instant);

/// What `Duration::as_nanos` returns: the whole span in nanoseconds.
pub uninterp spec fn nanos(span: Duration) -> nat;

/// The longest span a `Duration` holds, in nanoseconds: `u64::MAX` seconds
/// and one nanosecond short of a further second.
pub open spec fn max_duration_nanos() -> nat {
    18446744073709551615999999999
}

/// Calls `Instant::now`. Nothing is known of the moment it returns.
#[verifier::external_body]
pub(crate) fn start_timer() -> Instant {
    Instant::now()
}

/// Calls `Instant::elapsed`. Nothing is known of the span it returns.
#[verifier::external_body]
pub(crate) fn elapsed_since(start: &Instant) -> Duration {
    start.elapsed()
}

/// Calls `Duration::new` with no seconds and no nanoseconds: the empty span.
#[verifier::external_body]
pub(crate) fn zero_duration() -> (span: Duration)
    ensures
        nanos(span) == 0,
{
    Duration::new(0, 0)
}

/// Calls `Duration::as_nanos`.
#[verifier::external_body]
pub(crate) fn duration_nanos(span: &Duration) -> (n: u128)
    ensures
        n == nanos(*span),
{
    span.as_nanos()
}

/// Calls `Duration::checked_add`: the sum of the two spans, or `None` where
/// the sum is longer than a `Duration` holds.
#[verifier::external_body]
pub(crate) fn add_durations(a: &Duration, b: &Duration) -> (r: Option<Duration>)
    ensures
        r is None <==> nanos(*a) + nanos(*b) > max_duration_nanos(),
        r matches Some(sum) ==> nanos(sum) == nanos(*a) + nanos(*b),
{
    a.checked_add(*b)
}

} // verus!
