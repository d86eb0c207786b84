//! The monotonic clock behind `get_now_nsec`.

use vstd::prelude::*;

verus! {

/// `std::time::Instant`, a reading of the monotonic clock.
#[verifier::external_type_specification]
#[verifier::external_body]
pub struct ExInstant(std::time::Instant);

/// The span of time from the reading `earlier` to the reading `later`, which
/// is zero where `earlier` is the later one: what `Instant::duration_since`
/// returns.
pub uninterp spec fn instant_span(later: std::time::Instant, earlier: std::time::Instant)
    -> std::time::Duration;

/// A span of time in whole nanoseconds: what `Duration::as_nanos` returns.
pub uninterp spec fn duration_nanos(span: std::time::Duration) -> u128;

/// `Instant::now`: a reading of the monotonic clock. Nothing is claimed of it.
pub assume_specification[ std::time::Instant::now ]() -> (now: std::time::Instant)
;

/// `Instant::duration_since`: the span of time between two readings. It
/// depends on the two readings alone.
pub assume_specification[ std::time::Instant::duration_since ](
    later: &std::time::Instant,
    earlier: std::time::Instant,
) -> (span: std::time::Duration)
    ensures
        span == instant_span(*later, earlier),
;

/// `Duration::as_nanos`: a span of time in whole nanoseconds. It depends on
/// the span alone.
pub assume_specification[ std::time::Duration::as_nanos ](span: &std::time::Duration) -> (nanos:
    u128)
    ensures
        nanos == duration_nanos(*span),
;

/// The nanoseconds from the reading `origin` to the reading `now` as the guest
/// gets them: nothing where they do not fit 64 bits.
pub open spec fn nsec_between(now: std::time::Instant, origin: std::time::Instant) -> Option<u64> {
    nsec_of(duration_nanos(instant_span(now, origin)))
}

/// The nanoseconds that have passed since a reading of the clock, as the
/// guest gets them.
pub fn nsec_since(origin: std::time::Instant, now: std::time::Instant) -> (nsec: Option<u64>)
    ensures
        nsec == nsec_between(now, origin),
{
    let span = now.duration_since(origin);
    narrow_nsec(span.as_nanos())
}

/// A count of nanoseconds as the guest gets it, where it fits 64 bits.
pub open spec fn nsec_of(nanos: u128) -> Option<u64> {
    if nanos <= u64::MAX {
        Some(nanos as u64)
    } else {
        None
    }
}

/// Narrows a count of nanoseconds to the 64 bits that the guest gets.
pub fn narrow_nsec(nanos: u128) -> (nsec: Option<u64>)
    ensures
        nsec == nsec_of(nanos),
{
    if nanos <= u64::MAX as u128 {
        Some(nanos as u64)
    } else {
        None
    }
}

/// Narrowing keeps the order of two counts: of two spans of time, the later
/// one is never given to the guest as the smaller count.
pub proof fn lemma_nsec_monotonic(earlier: u128, later: u128)
    requires
        earlier <= later,
        nsec_of(later) is Some,
    ensures
        nsec_of(earlier) is Some,
        nsec_of(earlier)->Some_0 <= nsec_of(later)->Some_0,
{
}

} // verus!
