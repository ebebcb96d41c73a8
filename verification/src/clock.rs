//! Instants in UTC.

use chrono::TimeZone;
use vstd::prelude::*;

verus! {

/// The seconds of the earliest instant that can be represented.
pub const MIN_SECS: i64 = -8_334_601_228_800;

/// The seconds of the latest instant that can be represented.
pub const MAX_SECS: i64 = 8_210_266_876_799;

/// An instant in UTC: seconds since the Unix epoch, and nanoseconds into that
/// second, which reach a second billion within a leap second.
#[derive(Clone, Copy, Debug, PartialEq, Eq, Structural)]
pub struct Timestamp {
    pub secs: i64,
    pub nanos: u32,
}

impl Timestamp {
    /// Whether the instant can be represented: its seconds are in range, and
    /// only the last second of a minute is a leap second.
    pub open spec fn valid(self) -> bool {
        &&& MIN_SECS <= self.secs <= MAX_SECS
        &&& self.nanos < 2_000_000_000
        &&& self.nanos >= 1_000_000_000 ==> self.secs as int % 60 == 59
    }

    /// Whether the instant is at or before another.
    pub open spec fn not_after(self, other: Timestamp) -> bool {
        self.secs < other.secs || (self.secs == other.secs && self.nanos <= other.nanos)
    }

    /// Whether a number of seconds later can be represented.
    pub open spec fn can_add(self, seconds: int) -> bool {
        self.valid() && self.secs + seconds <= MAX_SECS
    }

    /// The instant a positive number of seconds later. Leap seconds do not
    /// count, so that one is left at the same fraction of an ordinary second.
    pub open spec fn plus(self, seconds: int) -> Timestamp {
        Timestamp {
            secs: (self.secs + seconds) as i64,
            nanos: (self.nanos as int % 1_000_000_000) as u32,
        }
    }

    /// The instant at given seconds and nanoseconds, where there is one.
    ///
    /// Trusted: calls `chrono::TimeZone::timestamp_opt` on `chrono::Utc` and
    /// reads the two numbers back. It is claimed to give the same numbers back
    /// exactly where they make a valid instant, and nothing elsewhere.
    #[verifier::external_body]
    pub(crate) fn timestamp_opt(secs: i64, nanos: u32) -> (r: Option<Timestamp>)
        ensures
            r == (if (Timestamp { secs, nanos }).valid() {
                Some(Timestamp { secs, nanos })
            } else {
                None
            }),
    {
        let instant = chrono::Utc.timestamp_opt(secs, nanos).single()?;
        Some(Timestamp { secs: instant.timestamp(), nanos: instant.timestamp_subsec_nanos() })
    }

    /// The current instant.
    ///
    /// Trusted: calls `chrono::Utc::now`. Nothing is claimed of the time but
    /// that it is a valid instant since the epoch and not within a leap second.
    /// The call panics where the system clock stands before the epoch or past
    /// the last instant.
    #[verifier::external_body]
    pub(crate) fn now() -> (r: Timestamp)
        ensures
            r.valid(),
            0 <= r.secs,
            r.nanos < 1_000_000_000,
    {
        let instant = chrono::Utc::now();
        Timestamp { secs: instant.timestamp(), nanos: instant.timestamp_subsec_nanos() }
    }

    /// Whether the instant is one that the system clock gave when it was read.
    pub closed spec fn read_from_clock(self) -> bool {
        call_ensures(Timestamp::now, (), self)
    }

    /// Reads the system clock.
    pub(crate) fn read_clock() -> (r: Timestamp)
        ensures
            r.read_from_clock(),
            r.valid(),
            0 <= r.secs,
            r.nanos < 1_000_000_000,
    {
        Timestamp::now()
    }

    /// The instant a positive number of seconds later.
    ///
    /// Trusted: calls `+` on a `chrono::DateTime<Utc>` and a
    /// `chrono::TimeDelta::seconds`, and reads the sum back. The sum is claimed
    /// to lie that many seconds later, at the same fraction of a second; where
    /// it could not be represented the call would panic.
    #[verifier::external_body]
    pub(crate) fn add_seconds(self, seconds: i64) -> (r: Timestamp)
        requires
            0 < seconds,
            self.can_add(seconds as int),
        ensures
            r == self.plus(seconds as int),
    {
        let start = chrono::DateTime::from_timestamp(self.secs, self.nanos).unwrap();
        let sum: chrono::DateTime<chrono::Utc> = start + chrono::TimeDelta::seconds(seconds);
        Timestamp { secs: sum.timestamp(), nanos: sum.timestamp_subsec_nanos() }
    }

    /// The instant at given seconds and nanoseconds, where there is one.
    pub fn at(secs: i64, nanos: u32) -> (r: Option<Timestamp>)
        ensures
            r == (if (Timestamp { secs, nanos }).valid() {
                Some(Timestamp { secs, nanos })
            } else {
                None
            }),
    {
        Self::timestamp_opt(secs, nanos)
    }
}

/// The instant to check, where it has not passed yet.
pub fn check_is_after(to_check: Timestamp, now: Timestamp) -> (r: Option<Timestamp>)
    ensures
        r == (if now.not_after(to_check) {
            Some(to_check)
        } else {
            None
        }),
{
    if now.secs < to_check.secs || (now.secs == to_check.secs && now.nanos <= to_check.nanos) {
        Some(to_check)
    } else {
        None
    }
}

/// Instants are ordered: the order is total, transitive, and two instants that
/// are each at or before the other are the same.
pub proof fn law_instants_ordered(a: Timestamp, b: Timestamp, c: Timestamp)
    ensures
        a.not_after(b) || b.not_after(a),
        a.not_after(b) && b.not_after(c) ==> a.not_after(c),
        a.not_after(b) && b.not_after(a) ==> a == b,
{
}

/// An instant in an earlier second is the earlier one, and within one second
/// the nanoseconds decide.
pub proof fn law_seconds_decide_before_nanos(a: Timestamp, b: Timestamp)
    ensures
        a.secs < b.secs ==> a.not_after(b) && !b.not_after(a),
        a.secs == b.secs ==> (a.not_after(b) <==> a.nanos <= b.nanos),
{
}

/// An instant can be represented exactly where its seconds lie in the range of
/// the calendar and its nanoseconds within the second, which has a second
/// billion of them only at the end of a minute.
pub proof fn law_valid_instants(t: Timestamp)
    ensures
        t.valid() <==> {
            &&& -8_334_601_228_800 <= t.secs <= 8_210_266_876_799
            &&& t.nanos < 1_000_000_000 || (t.nanos < 2_000_000_000 && t.secs as int % 60 == 59)
        },
{
}

/// A later instant keeps the fraction of the second, lies as many seconds later
/// as were added, and can be represented exactly where its seconds can. Seconds
/// can be added in one go or in two.
pub proof fn law_added_seconds_count(t: Timestamp, seconds: int, more: int)
    requires
        t.valid(),
        0 < seconds,
        0 < more,
    ensures
        t.can_add(seconds) <==> t.secs + seconds <= 8_210_266_876_799,
        t.can_add(seconds) ==> t.plus(seconds).secs == t.secs + seconds,
        t.nanos < 1_000_000_000 ==> t.plus(seconds).nanos == t.nanos,
        t.nanos >= 1_000_000_000 ==> t.plus(seconds).nanos == t.nanos - 1_000_000_000,
        t.can_add(seconds + more) ==> t.plus(seconds).can_add(more) && t.plus(seconds).plus(more)
            == t.plus(seconds + more),
{
}

/// An instant read from the clock is one that a call of `Timestamp::now` gave,
/// so it is a valid instant since the epoch, outside any leap second.
pub(crate) proof fn law_clock_reading_is_now(t: Timestamp)
    requires
        t.read_from_clock(),
    ensures
        call_ensures(Timestamp::now, (), t),
        t.valid(),
        0 <= t.secs,
        t.nanos < 1_000_000_000,
{
}

/// A positive number of seconds leads to a valid instant that is later.
pub proof fn law_adding_seconds_moves_on(t: Timestamp, seconds: int)
    requires
        0 < seconds,
        t.can_add(seconds),
    ensures
        t.plus(seconds).valid(),
        t.not_after(t.plus(seconds)),
        !t.plus(seconds).not_after(t),
{
}

} // verus!
