//! Publication times and how they are compared and shown.
use vstd::prelude::*;

verus! {

/// A point in time: whole seconds since the Unix epoch and the part of a second
/// after them (which exceeds a second only during a leap second).
#[derive(Clone, Copy, Debug, PartialEq, Eq)]
pub struct Timestamp {
    pub secs: i64,
    pub nanos: u32,
}

/// `a` is no later than `b`.
pub open spec fn not_after(a: Timestamp, b: Timestamp) -> bool {
    a.secs < b.secs || (a.secs == b.secs && a.nanos <= b.nanos)
}

impl Timestamp {
    pub fn new(secs: i64, nanos: u32) -> (r: Timestamp)
        ensures
            r.secs == secs,
            r.nanos == nanos,
    {
        Timestamp { secs, nanos }
    }

    /// Whether `self` is strictly earlier than `other`.
    pub fn is_before(&self, other: &Timestamp) -> (r: bool)
        ensures
            r == !not_after(*other, *self),
    {
        self.secs < other.secs || (self.secs == other.secs && self.nanos < other.nanos)
    }
}

/// The instant that chrono reads from an RFC 2822 date-time, as seconds and nanoseconds.
pub uninterp spec fn rfc2822_instant(s: Seq<char>) -> Option<(i64, u32)>;

/// Relies on `chrono::DateTime::parse_from_rfc2822`: whether it parses, and the instant,
/// depend on the text alone.
#[verifier::external_body]
pub(crate) fn parse_rfc2822(s: &str) -> (r: Option<Timestamp>)
    ensures
        match r {
            Some(t) => rfc2822_instant(s@) == Some((t.secs, t.nanos)),
            None => rfc2822_instant(s@) is None,
        },
{
    chrono::DateTime::parse_from_rfc2822(s).ok().map(
        |d| Timestamp { secs: d.timestamp(), nanos: d.timestamp_subsec_nanos() },
    )
}

/// Parses an RFC 2822 date-time such as `Tue, 1 Jul 2003 10:52:37 +0200`.
pub fn parse_date(s: &str) -> (r: Option<Timestamp>)
    ensures
        match r {
            Some(t) => rfc2822_instant(s@) == Some((t.secs, t.nanos)),
            None => rfc2822_instant(s@) is None,
        },
{
    parse_rfc2822(s)
}

/// The largest span, in seconds, that a relative label is given for.
pub const LABEL_SPAN_LIMIT: i64 = 9_223_372_036_854_775;

/// The English phrase that `chrono_humanize` gives a span of `secs` seconds
/// ("2 hours ago", "in a minute").
pub uninterp spec fn humanized(secs: int) -> Seq<char>;

/// Relies on `chrono_humanize::HumanTime` built from a `chrono::Duration` of whole
/// seconds and shown with `Display`: the phrase depends on the span alone.
/// `Duration::seconds` panics beyond the limit.
#[verifier::external_body]
fn humanize_seconds(secs: i64) -> (r: String)
    requires
        -LABEL_SPAN_LIMIT <= secs <= LABEL_SPAN_LIMIT,
    ensures
        r@ == humanized(secs as int),
{
    chrono_humanize::HumanTime::from(chrono::Duration::seconds(secs)).to_string()
}

/// Seconds from `now` to `t` (negative in the past), held within the limit.
pub open spec fn relative_seconds(t: Timestamp, now: Timestamp) -> int {
    let d = t.secs - now.secs;
    if d > LABEL_SPAN_LIMIT {
        LABEL_SPAN_LIMIT as int
    } else if d < -LABEL_SPAN_LIMIT {
        -LABEL_SPAN_LIMIT
    } else {
        d
    }
}

/// How long ago (or how far ahead) `t` is, seen from `now`, in words.
pub fn relative_label(t: &Timestamp, now: &Timestamp) -> (r: String)
    ensures
        r@ == humanized(relative_seconds(*t, *now)),
{
    let d: i128 = t.secs as i128 - now.secs as i128;
    let secs: i64 = if d > LABEL_SPAN_LIMIT as i128 {
        LABEL_SPAN_LIMIT
    } else if d < -(LABEL_SPAN_LIMIT as i128) {
        -LABEL_SPAN_LIMIT
    } else {
        d as i64
    };
    humanize_seconds(secs)
}

} // verus!
