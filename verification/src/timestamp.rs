//! Instants, as the deployment platform writes them and as this crate
//! compares them.
//!
//! The platform sends instants as RFC 3339 text. Reading that text and
//! measuring the time between two instants is left to `chrono`; what this
//! crate keeps of an instant is the pair of numbers that orders it.

use vstd::prelude::*;

verus! {

/// An instant: whole seconds since the Unix epoch, and the nanoseconds since
/// the last second boundary (which pass 999,999,999 within a leap second).
/// Instants are ordered by the seconds first, the nanoseconds second.
#[derive(Clone, Copy, Debug, PartialEq, Eq, Structural)]
pub struct Timestamp {
    pub secs: i64,
    pub nanos: u32,
}

/// What `chrono` reads from a text as an RFC 3339 date and time: the
/// seconds and nanoseconds of the instant, or nothing where the text is none.
pub uninterp spec fn rfc3339_instant(text: Seq<char>) -> Option<(i64, u32)>;

/// What `chrono` measures from the instant `(from_secs, from_nanos)` to the
/// instant `(to_secs, to_nanos)` in whole seconds, negative where the second
/// lies before the first; nothing where one of the pairs is no instant that
/// `chrono` can hold.
pub uninterp spec fn whole_seconds_between(
    from_secs: i64,
    from_nanos: u32,
    to_secs: i64,
    to_nanos: u32,
) -> Option<i64>;

/// The nanoseconds from one instant to another, negative where the second
/// lies before the first.
pub open spec fn nanos_between(from: Timestamp, to: Timestamp) -> int {
    (to.secs - from.secs) * 1_000_000_000 + (to.nanos - from.nanos)
}

/// The whole seconds in a number of nanoseconds, the rest dropped: of
/// 1.9 seconds one, and of -1.9 seconds minus one.
pub open spec fn whole_seconds(nanos: int) -> int {
    if nanos >= 0 {
        nanos / 1_000_000_000
    } else {
        -((-nanos) / 1_000_000_000)
    }
}

/// Whether the instant lies outside a leap second: its nanoseconds are
/// below a second.
pub open spec fn is_plain(t: Timestamp) -> bool {
    t.nanos < 1_000_000_000
}

/// Calls `chrono::DateTime::parse_from_rfc3339` and hands out the instant it
/// read as `timestamp()` and `timestamp_subsec_nanos()` give it. Nothing is
/// claimed of the grammar: the result is whatever `chrono` makes of the text,
/// which depends on the text alone.
#[verifier::external_body]
fn read_rfc3339(s: &str) -> (r: Option<(i64, u32)>)
    ensures
        r == rfc3339_instant(s@),
{
    match chrono::DateTime::parse_from_rfc3339(s) {
        Ok(dt) => Some((dt.timestamp(), dt.timestamp_subsec_nanos())),
        Err(_) => None,
    }
}

/// Rebuilds both instants with `chrono::DateTime::from_timestamp`, subtracts
/// the first from the second with `signed_duration_since` and hands out
/// `num_seconds()` of the difference. The result is whatever `chrono`
/// computes, which depends on the four numbers alone. One thing is claimed
/// of it: between two instants outside leap seconds, what is measured is the
/// difference of the instants in whole seconds, the rest dropped. Within a
/// leap second `chrono` counts the second that the numbers do not show, and
/// nothing is claimed.
#[verifier::external_body]
fn measure_seconds(from: Timestamp, to: Timestamp) -> (r: Option<i64>)
    ensures
        r == whole_seconds_between(from.secs, from.nanos, to.secs, to.nanos),
        is_plain(from) && is_plain(to) && r is Some ==> r->0 == whole_seconds(
            nanos_between(from, to),
        ),
{
    match (
        chrono::DateTime::from_timestamp(from.secs, from.nanos),
        chrono::DateTime::from_timestamp(to.secs, to.nanos),
    ) {
        (Some(a), Some(b)) => Some(b.signed_duration_since(a).num_seconds()),
        _ => None,
    }
}

/// The instant that a text denotes, if it is an RFC 3339 date and time.
pub open spec fn instant_of(text: Seq<char>) -> Option<Timestamp> {
    match rfc3339_instant(text) {
        Some((secs, nanos)) => Some(Timestamp { secs, nanos }),
        None => None,
    }
}

/// The instant that an optional text denotes; none where there is no text.
pub open spec fn instant_of_opt(text: Option<String>) -> Option<Timestamp> {
    match text {
        Some(t) => instant_of(t@),
        None => None,
    }
}

/// Reads an RFC 3339 date and time.
pub fn parse_ts(s: &str) -> (r: Option<Timestamp>)
    ensures
        r == instant_of(s@),
{
    match read_rfc3339(s) {
        Some((secs, nanos)) => Some(Timestamp { secs, nanos }),
        None => None,
    }
}

/// Reads an optional RFC 3339 date and time.
pub fn parse_ts_opt(s: &Option<String>) -> (r: Option<Timestamp>)
    ensures
        r == instant_of_opt(*s),
{
    match s {
        Some(t) => parse_ts(t.as_str()),
        None => None,
    }
}

impl Timestamp {
    /// Whether `self` lies before `other`.
    pub open spec fn is_before(self, other: Timestamp) -> bool {
        self.secs < other.secs || (self.secs == other.secs && self.nanos < other.nanos)
    }

    /// Executable form of [`Timestamp::is_before`].
    pub fn before(&self, other: &Timestamp) -> (r: bool)
        ensures
            r == self.is_before(*other),
    {
        self.secs < other.secs || (self.secs == other.secs && self.nanos < other.nanos)
    }
}

/// Whether the key `a` sorts before the key `b`: a missing instant sorts
/// before every instant, and two instants sort by time.
pub open spec fn key_before(a: Option<Timestamp>, b: Option<Timestamp>) -> bool {
    match (a, b) {
        (None, None) => false,
        (None, Some(_)) => true,
        (Some(_), None) => false,
        (Some(x), Some(y)) => x.is_before(y),
    }
}

/// Executable form of [`key_before`].
pub fn is_key_before(a: &Option<Timestamp>, b: &Option<Timestamp>) -> (r: bool)
    ensures
        r == key_before(*a, *b),
{
    match (a, b) {
        (None, None) => false,
        (None, Some(_)) => true,
        (Some(_), None) => false,
        (Some(x), Some(y)) => x.before(y),
    }
}

/// A measured number of seconds as a duration: a negative one counts as none.
pub open spec fn clamped(elapsed: i64) -> u64 {
    if elapsed < 0 {
        0
    } else {
        elapsed as u64
    }
}

/// The duration of what started at `started` and finished at `finished`,
/// given what was measured between the two; undefined where either instant
/// is missing or nothing could be measured.
pub open spec fn duration_from(
    started: Option<Timestamp>,
    finished: Option<Timestamp>,
    measured: Option<i64>,
) -> Option<u64> {
    if started is Some && finished is Some && measured is Some {
        Some(clamped(measured->0))
    } else {
        None
    }
}

/// What was measured between two instants, where both are there.
pub open spec fn measured_between(started: Option<Timestamp>, finished: Option<Timestamp>) -> Option<
    i64,
> {
    if started is Some && finished is Some {
        whole_seconds_between(
            started->0.secs,
            started->0.nanos,
            finished->0.secs,
            finished->0.nanos,
        )
    } else {
        None
    }
}

/// Executable form of [`duration_from`].
pub fn duration_of(
    started: Option<Timestamp>,
    finished: Option<Timestamp>,
    measured: Option<i64>,
) -> (r: Option<u64>)
    ensures
        r == duration_from(started, finished, measured),
{
    if started.is_none() || finished.is_none() {
        return None;
    }
    match measured {
        Some(elapsed) => {
            if elapsed < 0 {
                Some(0)
            } else {
                Some(elapsed as u64)
            }
        },
        None => None,
    }
}

/// The duration between two instants outside leap seconds: their
/// difference in whole seconds, and none where the second lies before the
/// first.
pub open spec fn plain_duration(started: Timestamp, finished: Timestamp) -> int {
    if nanos_between(started, finished) <= 0 {
        0
    } else {
        nanos_between(started, finished) / 1_000_000_000
    }
}

/// The whole seconds from `started` to `finished`, never negative; undefined
/// where either instant is missing or is none that can be measured from.
pub fn duration_between(started: Option<Timestamp>, finished: Option<Timestamp>) -> (r: Option<
    u64,
>)
    ensures
        r == duration_from(started, finished, measured_between(started, finished)),
        started is None || finished is None ==> r is None,
        r is Some && is_plain(started->0) && is_plain(finished->0) ==> r->0 == plain_duration(
            started->0,
            finished->0,
        ),
{
    let measured = match (started, finished) {
        (Some(a), Some(b)) => measure_seconds(a, b),
        _ => None,
    };
    duration_of(started, finished, measured)
}

/// The whole seconds between two instants given as text, never negative;
/// undefined where either text is missing or is no RFC 3339 date and time.
pub fn calculate_duration(started_at: &Option<String>, finished_at: &Option<String>) -> (r: Option<
    u64,
>)
    ensures
        r == duration_from(
            instant_of_opt(*started_at),
            instant_of_opt(*finished_at),
            measured_between(instant_of_opt(*started_at), instant_of_opt(*finished_at)),
        ),
        instant_of_opt(*started_at) is None || instant_of_opt(*finished_at) is None ==> r is None,
        r is Some && is_plain(instant_of_opt(*started_at)->0) && is_plain(
            instant_of_opt(*finished_at)->0,
        ) ==> r->0 == plain_duration(
            instant_of_opt(*started_at)->0,
            instant_of_opt(*finished_at)->0,
        ),
{
    let started = parse_ts_opt(started_at);
    if started.is_none() {
        return None;
    }
    let finished = parse_ts_opt(finished_at);
    duration_between(started, finished)
}

impl crate::order::SortKey for Option<Timestamp> {
    open spec fn sorts_before(&self, other: &Self) -> bool {
        key_before(*self, *other)
    }

    fn is_before(&self, other: &Self) -> (r: bool) {
        is_key_before(self, other)
    }

    proof fn lemma_irreflexive(a: &Self) {
    }

    proof fn lemma_transitive(a: &Self, b: &Self, c: &Self) {
    }

    proof fn lemma_alike_transitive(a: &Self, b: &Self, c: &Self) {
    }
}

} // verus!
