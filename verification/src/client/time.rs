use chrono::{DateTime, Utc};
use std::time::Duration;
use vstd::prelude::*;

verus! {

/// The length of `d` in nanoseconds, as `Duration::as_nanos` gives it.
pub uninterp spec fn duration_nanos(d: Duration) -> nat;

/// The instant that `DateTime::parse_from_rfc2822` reads from `s`, in
/// milliseconds since the start of 1970 (UTC); `None` where it refuses `s`.
pub uninterp spec fn rfc2822_millis(s: Seq<char>) -> Option<i64>;

/// The nanoseconds in `millis` milliseconds.
pub open spec fn nanos_of_millis(millis: nat) -> nat {
    millis * 1_000_000
}

/// The nanoseconds in `secs` seconds.
pub open spec fn nanos_of_secs(secs: nat) -> nat {
    secs * 1_000_000_000
}

/// `Duration::from_millis`: a duration of that many milliseconds.
#[verifier::external_body]
pub(crate) fn duration_from_millis(millis: u64) -> (d: Duration)
    ensures
        duration_nanos(d) == nanos_of_millis(millis as nat),
{
    Duration::from_millis(millis)
}

/// `Duration::from_secs`: a duration of that many seconds.
#[verifier::external_body]
pub(crate) fn duration_from_secs(secs: u64) -> (d: Duration)
    ensures
        duration_nanos(d) == nanos_of_secs(secs as nat),
{
    Duration::from_secs(secs)
}

/// `Duration::is_zero`: whether the duration has no length.
#[verifier::external_body]
pub(crate) fn duration_is_zero(d: &Duration) -> (r: bool)
    ensures
        r == (duration_nanos(*d) == 0),
{
    d.is_zero()
}

/// `DateTime::parse_from_rfc2822`, then `timestamp_millis` of the date read.
#[verifier::external_body]
pub(crate) fn parse_rfc2822(s: &str) -> (r: Option<i64>)
    ensures
        r == rfc2822_millis(s@),
{
    DateTime::parse_from_rfc2822(s).ok().map(|t| t.timestamp_millis())
}

/// `Utc::now`, as milliseconds since the start of 1970: the clock's reading,
/// of which nothing is known beforehand.
#[verifier::external_body]
pub(crate) fn now_millis() -> i64 {
    Utc::now().timestamp_millis()
}

} // verus!
