//! Instants of coordinated universal time, and what the `chrono` crate
//! computes with them.

use vstd::prelude::*;

verus! {

/// The seconds of the earliest instant of the calendar.
pub const MIN_SECS: i64 = -8_334_601_228_800;

/// The seconds of the latest instant of the calendar.
pub const MAX_SECS: i64 = 8_210_266_876_799;

/// The nanoseconds of one second.
pub const NANOS_PER_SEC: u32 = 1_000_000_000;

/// The seconds of one day.
pub const SECS_PER_DAY: i64 = 86_400;

/// An instant of coordinated universal time: the seconds since the start of
/// 1970, and the nanoseconds within the second. A leap second is counted with
/// the second before it, whose nanoseconds then run on beyond one second.
#[derive(Clone, Copy, Debug, PartialEq, Eq, Structural)]
pub struct UtcTime {
    pub secs: i64,
    pub nanos: u32,
}

impl View for UtcTime {
    type V = (i64, u32);

    open spec fn view(&self) -> (i64, u32) {
        (self.secs, self.nanos)
    }
}

/// Whether seconds and nanoseconds denote an instant of the calendar.
pub open spec fn is_instant(secs: int, nanos: int) -> bool {
    &&& MIN_SECS <= secs <= MAX_SECS
    &&& 0 <= nanos < 2 * NANOS_PER_SEC
    &&& nanos >= NANOS_PER_SEC ==> secs % 60 == 59
}

/// `a / b` without its fraction, rounded towards zero.
pub open spec fn truncated_div(a: int, b: int) -> int
    recommends
        b > 0,
{
    if a >= 0 {
        a / b
    } else {
        -((-a) / b)
    }
}

impl UtcTime {
    /// Whether this is an instant of the calendar.
    pub open spec fn wf(self) -> bool {
        is_instant(self.secs as int, self.nanos as int)
    }

    /// Whether this lies within a leap second.
    pub open spec fn in_leap_second(self) -> bool {
        self.nanos >= NANOS_PER_SEC
    }

    /// Whether this is later than `other`.
    pub open spec fn after(self, other: UtcTime) -> bool {
        self.secs > other.secs || (self.secs == other.secs && self.nanos > other.nanos)
    }

    /// The seconds of the instant that many days earlier. Going back, a leap
    /// second counts as the first second of the next minute.
    pub open spec fn secs_days_before(self, days: int) -> int {
        self.secs + (if self.in_leap_second() {
            1int
        } else {
            0
        }) - days * SECS_PER_DAY
    }

    /// The seconds of the instant that many days later. Going forward, a leap
    /// second counts as the second before it.
    pub open spec fn secs_days_after(self, days: int) -> int {
        self.secs + days * SECS_PER_DAY
    }

    /// The nanoseconds within the second, without the leap second.
    pub open spec fn plain_nanos(self) -> int {
        if self.in_leap_second() {
            self.nanos - NANOS_PER_SEC
        } else {
            self.nanos as int
        }
    }

    /// The instant that many days earlier.
    pub open spec fn days_before(self, days: int) -> UtcTime {
        UtcTime { secs: self.secs_days_before(days) as i64, nanos: self.plain_nanos() as u32 }
    }

    /// The instant that many days later.
    pub open spec fn days_after(self, days: int) -> UtcTime {
        UtcTime { secs: self.secs_days_after(days) as i64, nanos: self.plain_nanos() as u32 }
    }

    /// The second of the day, from 0 on.
    pub open spec fn second_of_day(self) -> int {
        self.secs as int % SECS_PER_DAY as int
    }

    /// The nanoseconds from `other` to this, negative if this is earlier. A
    /// leap second between the two is counted where the clock time shows it.
    pub open spec fn nanos_since(self, other: UtcTime) -> int {
        let leap: int = if self.second_of_day() > other.second_of_day() && other.in_leap_second() {
            1
        } else if self.second_of_day() < other.second_of_day() && self.in_leap_second() {
            -1
        } else {
            0
        };
        (self.secs - other.secs + leap) * NANOS_PER_SEC + self.nanos - other.nanos
    }

    /// The whole days from `other` to this, rounded towards zero.
    pub open spec fn days_since(self, other: UtcTime) -> int {
        truncated_div(self.nanos_since(other), SECS_PER_DAY * NANOS_PER_SEC)
    }

    /// The instant with these seconds and nanoseconds, if there is one.
    pub fn new(secs: i64, nanos: u32) -> (t: Option<UtcTime>)
        ensures
            t is Some == is_instant(secs as int, nanos as int),
            t matches Some(v) ==> v == (UtcTime { secs, nanos }),
    {
        if secs < MIN_SECS || secs > MAX_SECS {
            return None;
        }
        if nanos >= 2 * NANOS_PER_SEC {
            return None;
        }
        if nanos >= NANOS_PER_SEC && (secs - MIN_SECS) % 60 != 59 {
            return None;
        }
        Some(UtcTime { secs, nanos })
    }

    /// Whether this is later than `other`.
    pub fn is_after(&self, other: &UtcTime) -> (later: bool)
        ensures
            later == self.after(*other),
    {
        self.secs > other.secs || (self.secs == other.secs && self.nanos > other.nanos)
    }
}

/// Whether an instant can be a reading of the clock: one of the calendar, not
/// before 1970 and not in a leap second.
pub open spec fn clock_reading(now: UtcTime) -> bool {
    now.wf() && now.secs >= 0 && !now.in_leap_second()
}

/// Whether the clock gave an instant. What this rests on is visible in this
/// module alone, so elsewhere it can be shown of what [`utc_now`] returned, and
/// of no instant that was come by in another way.
pub closed spec fn given_by_clock(now: UtcTime) -> bool {
    clock_reading(now)
}

/// Reads the clock with `chrono::Utc::now`. The reading is an instant of the
/// calendar, not before 1970 and not in a leap second; nothing else is said of
/// it. That function panics where the system's clock stands before 1970 or
/// beyond the calendar.
#[verifier::external_body]
pub(crate) fn utc_now() -> (now: UtcTime)
    ensures
        clock_reading(now),
        given_by_clock(now),
{
    let now = chrono::Utc::now();
    UtcTime { secs: now.timestamp(), nanos: now.timestamp_subsec_nanos() }
}

/// Subtracts days from an instant with the `-` of `chrono::DateTime<Utc>` and
/// a `chrono::Duration`. The difference is the instant that many times 86400
/// seconds earlier, out of the leap second if `t` is in one. The operator
/// panics where that lies before the calendar.
#[verifier::external_body]
pub(crate) fn minus_days(t: &UtcTime, days: u32) -> (earlier: UtcTime)
    requires
        t.wf(),
        days > 0,
        MIN_SECS <= t.secs_days_before(days as int),
    ensures
        earlier == t.days_before(days as int),
{
    let then = chrono::DateTime::from_timestamp(t.secs, t.nanos).unwrap()
        - chrono::Duration::days(i64::from(days));
    UtcTime { secs: then.timestamp(), nanos: then.timestamp_subsec_nanos() }
}

/// Adds days to an instant with the `+` of `chrono::DateTime<Utc>` and a
/// `chrono::Duration`. The sum is the instant that many times 86400 seconds
/// later, out of the leap second if `t` is in one. The operator panics where
/// that lies beyond the calendar.
#[verifier::external_body]
pub(crate) fn plus_days(t: &UtcTime, days: u32) -> (later: UtcTime)
    requires
        t.wf(),
        days > 0,
        t.secs_days_after(days as int) <= MAX_SECS,
    ensures
        later == t.days_after(days as int),
{
    let then = chrono::DateTime::from_timestamp(t.secs, t.nanos).unwrap()
        + chrono::Duration::days(i64::from(days));
    UtcTime { secs: then.timestamp(), nanos: then.timestamp_subsec_nanos() }
}

/// The whole days between two instants: the `-` of two
/// `chrono::DateTime<Utc>`, and `num_days` of the difference, which rounds
/// towards zero.
#[verifier::external_body]
pub(crate) fn whole_days_between(later: &UtcTime, earlier: &UtcTime) -> (days: i64)
    requires
        later.wf(),
        earlier.wf(),
    ensures
        days == later.days_since(*earlier),
{
    let to = chrono::DateTime::from_timestamp(later.secs, later.nanos).unwrap();
    let from = chrono::DateTime::from_timestamp(earlier.secs, earlier.nanos).unwrap();
    (to - from).num_days()
}

/// The instant, as seconds and nanoseconds, that
/// `chrono::DateTime::parse_from_rfc2822` reads in a text, if it reads one.
pub uninterp spec fn rfc2822_time(text: Seq<char>) -> Option<(i64, u32)>;

/// The instant, as seconds and nanoseconds, that
/// `chrono::NaiveDateTime::parse_from_str` reads in a text by a format, taken
/// as coordinated universal time, if it reads one.
pub uninterp spec fn naive_time(text: Seq<char>, format: Seq<char>) -> Option<(i64, u32)>;

/// The seconds and nanoseconds of an instant, if there is one.
pub open spec fn time_parts(t: Option<UtcTime>) -> Option<(i64, u32)> {
    match t {
        Some(v) => Some(v@),
        None => None,
    }
}

/// Reads a date and time in the form of RFC 2822 with
/// `chrono::DateTime::parse_from_rfc2822`, and turns it to coordinated
/// universal time. What is read is an instant of the calendar.
#[verifier::external_body]
pub(crate) fn parse_rfc2822(text: &str) -> (t: Option<UtcTime>)
    ensures
        time_parts(t) == rfc2822_time(text@),
        t matches Some(v) ==> v.wf(),
{
    let read = chrono::DateTime::parse_from_rfc2822(text).ok()?.with_timezone(&chrono::Utc);
    Some(UtcTime { secs: read.timestamp(), nanos: read.timestamp_subsec_nanos() })
}

/// The form in which `openssl x509 -dates` prints a date and time: always in
/// coordinated universal time, under its old name.
pub const OPENSSL_TIME_FORMAT: &'static str = "%b %e %T %Y GMT";

/// Reads a date and time without an offset by a format, with
/// `chrono::NaiveDateTime::parse_from_str`, and takes it as coordinated
/// universal time with `and_utc`. What is read is an instant of the calendar.
#[verifier::external_body]
pub(crate) fn parse_naive(text: &str, format: &str) -> (t: Option<UtcTime>)
    ensures
        time_parts(t) == naive_time(text@, format@),
        t matches Some(v) ==> v.wf(),
{
    let read = chrono::NaiveDateTime::parse_from_str(text, format).ok()?.and_utc();
    Some(UtcTime { secs: read.timestamp(), nanos: read.timestamp_subsec_nanos() })
}

/// Instants are ordered by their seconds and, within a second, by their
/// nanoseconds; a leap second comes after the second it is counted with and
/// before the next.
pub proof fn law_later(a: UtcTime, b: UtcTime)
    requires
        a.wf(),
        b.wf(),
    ensures
        a.after(b) <==> a.secs * 2_000_000_000 + a.nanos > b.secs * 2_000_000_000 + b.nanos,
        !a.after(b) && !b.after(a) <==> a == b,
{
}

/// The instants of the calendar, by numbers: a second has its nanoseconds, and
/// the last of a minute may have those of a leap second as well.
pub proof fn law_instants(t: UtcTime)
    ensures
        t.wf() <==> {
            &&& -8_334_601_228_800 <= t.secs <= 8_210_266_876_799
            &&& t.nanos < 1_000_000_000 || (t.nanos < 2_000_000_000 && t.secs as int % 60 == 59)
        },
{
}

/// Days are of 86400 seconds. Going forward and back again by as many leads to
/// where it began, but for an instant in a leap second.
pub proof fn law_days(t: UtcTime, days: int)
    requires
        t.wf(),
        t.nanos < 1_000_000_000,
        days >= 0,
        t.secs + days * 86_400 <= MAX_SECS,
    ensures
        t.days_after(days) == (UtcTime { secs: (t.secs + days * 86_400) as i64, nanos: t.nanos }),
        t.days_after(days).days_before(days) == t,
{
    assert(days * 86_400 >= 0) by (nonlinear_arith)
        requires
            days >= 0,
    ;
}

} // verus!
