//! The standard library's clock and spans of time, as far as the library
//! relies on them. Everything here is trusted.

use std::time::{Duration, Instant};
use vstd::prelude::*;

verus! {

/// A reading of the monotonic clock. Nothing is known of what it holds.
#[verifier::external_type_specification]
#[verifier::external_body]
pub struct ExInstant(std::time::Instant);

/// The length of a span of time in nanoseconds.
pub uninterp spec fn duration_nanos(span: Duration) -> nat;

/// `Instant::now`: the clock's present reading.
#[verifier::external_body]
pub(crate) fn clock_now() -> Instant {
    Instant::now()
}

/// `Instant::elapsed`: the time gone by since `start` was read.
#[verifier::external_body]
pub(crate) fn clock_elapsed(start: &Instant) -> Duration {
    start.elapsed()
}

/// `Duration::as_nanos`: the whole span in nanoseconds.
#[verifier::external_body]
pub(crate) fn nanos_of(span: &Duration) -> (nanos: u128)
    ensures
        nanos == duration_nanos(*span),
{
    span.as_nanos()
}

/// `Duration::sub`: the difference of two spans. The standard library
/// panics where the difference would be negative, which the precondition
/// rules out.
#[verifier::external_body]
pub(crate) fn span_minus(longer: Duration, shorter: Duration) -> (span: Duration)
    requires
        duration_nanos(longer) >= duration_nanos(shorter),
    ensures
        duration_nanos(span) == duration_nanos(longer) - duration_nanos(shorter),
{
    longer - shorter
}

/// `Duration::from_secs`: the span of that many whole seconds.
#[verifier::external_body]
pub(crate) fn whole_seconds(seconds: u64) -> (span: Duration)
    ensures
        duration_nanos(span) == seconds * 1_000_000_000,
{
    Duration::from_secs(seconds)
}

} // verus!
