//! Spans of time as whole nanoseconds.

use std::time::Duration;
use vstd::prelude::*;

verus! {

/// The length of a `Duration` in nanoseconds, as `Duration::as_nanos`
/// gives it.
pub uninterp spec fn nanos_of(d: Duration) -> nat;

/// The span, in nanoseconds, that a text denotes when it is read as a
/// floating-point number of seconds; `None` where the text is no such
/// number, or the number is negative, not finite or beyond a `Duration`.
pub uninterp spec fn seconds_of(text: Seq<char>) -> Option<nat>;

/// The span that a text denotes when it is read as a floating-point number
/// of milliseconds: a thousandth of what it denotes in seconds, cut to
/// whole nanoseconds.
pub open spec fn millis_of(text: Seq<char>) -> Option<nat> {
    match seconds_of(text) {
        Some(nanos) => Some(nanos / 1000),
        None => None,
    }
}

/// The lengths of an optional span.
pub open spec fn nanos_of_option(d: Option<Duration>) -> Option<nat> {
    match d {
        Some(d) => Some(nanos_of(d)),
        None => None,
    }
}

/// `str::parse` to a floating-point number, then
/// `Duration::try_from_secs_f64`: the span that the text denotes in
/// seconds, and `None` where either of the two refuses. The contract
/// gives the outcome its name and claims no more.
#[verifier::external_body]
pub(crate) fn parse_seconds(text: &str) -> (span: Option<Duration>)
    ensures
        nanos_of_option(span) == seconds_of(text@),
{
    Duration::try_from_secs_f64(text.parse().ok()?).ok()
}

/// `Duration / u32`: std documents the quotient of the span by the
/// divisor, and a panic for a zero divisor.
#[verifier::external_body]
pub(crate) fn divide(span: Duration, divisor: u32) -> (part: Duration)
    requires
        divisor != 0,
    ensures
        nanos_of(part) == nanos_of(span) / (divisor as nat),
{
    span / divisor
}

/// `Duration::abs_diff`: std documents the absolute difference of the two
/// spans.
#[verifier::external_body]
pub(crate) fn distance(a: Duration, b: Duration) -> (gap: Duration)
    ensures
        nanos_of(gap) == if nanos_of(a) >= nanos_of(b) {
            nanos_of(a) - nanos_of(b)
        } else {
            nanos_of(b) - nanos_of(a)
        },
{
    a.abs_diff(b)
}

/// `Duration::from_millis`: std documents a span of that many
/// milliseconds.
#[verifier::external_body]
pub(crate) fn milliseconds(count: u64) -> (span: Duration)
    ensures
        nanos_of(span) == count * 1_000_000,
{
    Duration::from_millis(count)
}

/// Reads a text as a floating-point number of milliseconds.
pub fn parse_millis(text: &str) -> (span: Option<Duration>)
    ensures
        nanos_of_option(span) == millis_of(text@),
{
    match parse_seconds(text) {
        Some(seconds) => Some(divide(seconds, 1000)),
        None => None,
    }
}

} // verus!
