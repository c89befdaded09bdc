//! Points in time as plain values, and their UTC calendar text.
use vstd::prelude::*;

verus! {

/// The first second of the year 1 (UTC), in seconds since the Unix epoch.
pub const MIN_TIMESTAMP_SECS: i64 = -62_135_596_800;

/// The last second of the year 9999 (UTC), in seconds since the Unix epoch.
pub const MAX_TIMESTAMP_SECS: i64 = 253_402_300_799;

/// A point in time: whole seconds since the Unix epoch (UTC) and the
/// nanoseconds within that second.
#[derive(Clone, Copy, Debug, PartialEq, Eq)]
pub struct Timestamp {
    /// Seconds since 1970-01-01T00:00:00Z.
    pub secs: i64,
    /// Nanoseconds within the second (below one billion).
    pub nanos: u32,
}

impl Timestamp {
    /// The nanosecond part is below one second and the point lies in the
    /// years 1 to 9999.
    pub open spec fn wf(self) -> bool {
        &&& self.nanos < 1_000_000_000
        &&& MIN_TIMESTAMP_SECS <= self.secs <= MAX_TIMESTAMP_SECS
    }

    /// The point as nanoseconds since the Unix epoch.
    pub open spec fn total_nanos(self) -> int {
        self.secs * 1_000_000_000 + self.nanos
    }

    /// Builds a timestamp from its parts.
    pub fn new(secs: i64, nanos: u32) -> (t: Timestamp)
        requires
            nanos < 1_000_000_000,
            MIN_TIMESTAMP_SECS <= secs <= MAX_TIMESTAMP_SECS,
        ensures
            t.secs == secs,
            t.nanos == nanos,
            t.wf(),
    {
        Timestamp { secs, nanos }
    }

    /// Builds a timestamp from its parts when they form a valid one.
    pub fn from_parts(secs: i64, nanos: u32) -> (t: Option<Timestamp>)
        ensures
            t matches Some(x) ==> x.secs == secs && x.nanos == nanos && x.wf(),
            t is None <==> !(nanos < 1_000_000_000 && MIN_TIMESTAMP_SECS <= secs
                <= MAX_TIMESTAMP_SECS),
    {
        if nanos < 1_000_000_000 && MIN_TIMESTAMP_SECS <= secs && secs <= MAX_TIMESTAMP_SECS {
            Some(Timestamp { secs, nanos })
        } else {
            None
        }
    }
}

/// The `chrono` format patterns this crate formats timestamps with.
pub open spec fn known_utc_pattern(p: Seq<char>) -> bool {
    ||| p == "%Y%m%d_%H%M%S"@
    ||| p == "%Y%m%d_%H%M%S_%f"@
    ||| p == "%Y-%m-%d_%H-%M-%S"@
    ||| p == "%Y-%m-%d %H:%M:%S%.3f"@
}

/// What `chrono` prints for a UTC point in time with a format pattern.
pub uninterp spec fn spec_format_utc(secs: i64, nanos: u32, pattern: Seq<char>) -> Seq<char>;

/// `chrono::DateTime::<Utc>::from_timestamp` followed by `format(pattern)`
/// and `to_string`: the calendar text of the point in UTC. Every point of the
/// years 1 to 9999 is a `DateTime<Utc>`, so the conversion succeeds on what
/// `requires` admits; the patterns used are valid ones, so printing them does
/// not fail. The text itself is named by [`spec_format_utc`].
#[verifier::external_body]
pub(crate) fn format_utc(t: Timestamp, pattern: &str) -> (r: String)
    requires
        t.wf(),
        known_utc_pattern(pattern@),
    ensures
        r@ == spec_format_utc(t.secs, t.nanos, pattern@),
{
    match chrono::DateTime::from_timestamp(t.secs, t.nanos) {
        Some(d) => d.format(pattern).to_string(),
        None => String::new(),
    }
}

} // verus!
