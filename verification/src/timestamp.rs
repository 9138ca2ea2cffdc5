use vstd::prelude::*;

verus! {

/// Bound (exclusive) on the seconds field of every timestamp the library
/// handles. chrono's `DateTime` covers about ±262,000 years around the
/// common era, well inside ±10^13 seconds of the Unix epoch, so every
/// instant obtained from the clock or from a parsed date lies inside it.
pub const SECS_LIMIT: i64 = 10_000_000_000_000;

/// Bound (exclusive) on the subsecond field. chrono represents a leap
/// second with a nanosecond value of 1_000_000_000 or more, but always
/// below 2_000_000_000.
pub const NANOS_LIMIT: u32 = 2_000_000_000;

/// An instant in UTC: whole seconds since the Unix epoch plus nanoseconds
/// past that second. Instants are ordered lexicographically by
/// `(secs, nanos)`.
#[derive(Clone, Copy, PartialEq, Eq, Structural, Debug)]
pub struct Timestamp {
    pub secs: i64,
    pub nanos: u32,
}

impl Timestamp {
    /// A well-formed timestamp stays inside the range that the clock and
    /// the date parser can produce.
    pub open spec fn wf(&self) -> bool {
        &&& -SECS_LIMIT < self.secs < SECS_LIMIT
        &&& self.nanos < NANOS_LIMIT
    }

    /// Strict lexicographic order on instants.
    pub open spec fn spec_lt(self, other: Timestamp) -> bool {
        self.secs < other.secs || (self.secs == other.secs && self.nanos < other.nanos)
    }

    /// The Unix epoch, the origin that the default passes carry.
    pub fn epoch() -> (r: Timestamp)
        ensures
            r == (Timestamp { secs: 0, nanos: 0 }),
            r.wf(),
    {
        Timestamp { secs: 0, nanos: 0 }
    }

    /// Whether `self` comes strictly before `other`.
    pub fn lt(&self, other: &Timestamp) -> (r: bool)
        ensures
            r == self.spec_lt(*other),
    {
        self.secs < other.secs || (self.secs == other.secs && self.nanos < other.nanos)
    }
}

/// Relies on `chrono::Utc::now` and the `timestamp` /
/// `timestamp_subsec_nanos` accessors of `chrono::DateTime`: the current
/// instant as whole seconds since the Unix epoch plus the nanoseconds past
/// that second. chrono documents the subsecond part as below 2_000_000_000
/// and keeps every date within about ±262,000 years, so the result is
/// well-formed. `Utc::now` itself aborts when the system clock stands
/// before 1970 or outside chrono's range — an environment fault, not a
/// condition on any input.
#[verifier::external_body]
pub(crate) fn now_timestamp() -> (r: Timestamp)
    ensures
        r.wf(),
{
    let t = chrono::Utc::now();
    Timestamp { secs: t.timestamp(), nanos: t.timestamp_subsec_nanos() }
}

/// The instant, as `(seconds, nanoseconds)`, that chrono's `FromStr` for
/// `DateTime<Utc>` reads out of a string, or `None` where the string is
/// rejected. The outcome depends on the characters alone.
pub uninterp spec fn parsed_utc(s: Seq<char>) -> Option<(i64, u32)>;

/// Relies on chrono's `FromStr` for `DateTime<Utc>`, which accepts a
/// relaxed form of RFC 3339: the outcome is a function of the string
/// alone, and any instant it yields lies in chrono's documented range of
/// about ±262,000 years with a subsecond part below 2_000_000_000.
#[verifier::external_body]
pub(crate) fn parse_utc(s: &str) -> (r: Option<(i64, u32)>)
    ensures
        r == parsed_utc(s@),
        r matches Some(t) ==> -SECS_LIMIT < t.0 < SECS_LIMIT && t.1 < NANOS_LIMIT,
{
    match s.parse::<chrono::DateTime<chrono::Utc>>() {
        Ok(t) => Some((t.timestamp(), t.timestamp_subsec_nanos())),
        Err(_) => None,
    }
}

} // verus!
