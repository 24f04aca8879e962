//! Times of day, local date-times and instants, and the calls into the
//! calendar and time-zone libraries that convert between them.

use chrono::{DateTime, Datelike, LocalResult, NaiveDate, NaiveTime, Offset, TimeZone, Timelike};
use chrono_tz::Tz;
use vstd::prelude::*;

verus! {

/// A time of day as the calendar library holds it: whole seconds since
/// midnight, and nanoseconds (from one to two billion within a leap second).
#[derive(Debug, Clone, Copy, PartialEq, Eq, Structural)]
pub struct ClockTime {
    pub secs: u32,
    pub nanos: u32,
}

/// A local (zone-less) date and time: the day counted from January 1 of
/// year 1 (day 1), and a time of day split as in [`ClockTime`].
#[derive(Debug, Clone, Copy, PartialEq, Eq, Structural)]
pub struct LocalDateTime {
    pub day: i64,
    pub secs: u32,
    pub nanos: u32,
}

/// An instant: seconds since the Unix epoch (UTC) and the nanoseconds
/// past that second.
#[derive(Debug, Clone, Copy, PartialEq, Eq, Structural)]
pub struct Instant {
    pub secs: i64,
    pub nanos: u32,
}

/// How a local date-time maps to instants in a time zone.
#[derive(Debug, Clone, Copy, PartialEq, Eq, Structural)]
pub enum LocalResolution {
    /// The date-time or zone cannot be handed to the time-zone library.
    Unrepresentable,
    /// The local time falls into a gap.
    Nonexistent,
    /// The local time maps to exactly one instant.
    Single(Instant),
    /// The local time occurs twice, in a fold.
    Ambiguous(Instant, Instant),
}

/// Strict order of times of day, as the calendar library compares them.
pub open spec fn clock_lt(a: ClockTime, b: ClockTime) -> bool {
    a.secs < b.secs || (a.secs == b.secs && a.nanos < b.nanos)
}

/// Order of times of day.
pub open spec fn clock_le(a: ClockTime, b: ClockTime) -> bool {
    clock_lt(a, b) || a == b
}

/// Strict order of local date-times.
pub open spec fn local_lt(a: LocalDateTime, b: LocalDateTime) -> bool {
    a.day < b.day || (a.day == b.day && clock_lt(time_of(a), time_of(b)))
}

/// Strict order of instants.
pub open spec fn instant_lt(a: Instant, b: Instant) -> bool {
    a.secs < b.secs || (a.secs == b.secs && a.nanos < b.nanos)
}

/// The time of day of a local date-time.
pub open spec fn time_of(t: LocalDateTime) -> ClockTime {
    ClockTime { secs: t.secs, nanos: t.nanos }
}

/// A time of day on a given day.
pub open spec fn at(day: i64, time: ClockTime) -> LocalDateTime {
    LocalDateTime { day: day, secs: time.secs, nanos: time.nanos }
}

/// The earlier of two instants (the first when they are equal).
pub open spec fn earlier(a: Instant, b: Instant) -> Instant {
    if instant_lt(b, a) {
        b
    } else {
        a
    }
}

impl ClockTime {
    /// Whether this time of day comes strictly before `other`.
    pub fn before(&self, other: &ClockTime) -> (r: bool)
        ensures
            r == clock_lt(*self, *other),
    {
        self.secs < other.secs || (self.secs == other.secs && self.nanos < other.nanos)
    }

    /// Whether this is the same time of day as `other`.
    pub fn same_as(&self, other: &ClockTime) -> (r: bool)
        ensures
            r == (*self == *other),
    {
        self.secs == other.secs && self.nanos == other.nanos
    }
}

impl LocalDateTime {
    /// Whether this local date-time comes strictly before `other`.
    pub fn before(&self, other: &LocalDateTime) -> (r: bool)
        ensures
            r == local_lt(*self, *other),
    {
        self.day < other.day || (self.day == other.day && (self.secs < other.secs || (self.secs
            == other.secs && self.nanos < other.nanos)))
    }
}

/// The earlier of two instants (the first when they are equal).
pub fn earlier_instant(a: Instant, b: Instant) -> (r: Instant)
    ensures
        r == earlier(a, b),
{
    if b.secs < a.secs || (b.secs == a.secs && b.nanos < a.nanos) {
        b
    } else {
        a
    }
}

/// Nanoseconds in one second.
pub const NANOS_PER_SEC: u32 = 1_000_000_000;

/// Seconds in one day.
pub const SECS_PER_DAY: u32 = 86_400;

/// A local date-time moved forward by a positive whole number of seconds, as
/// the calendar library adds a duration: a leap second is left first, then
/// the seconds are added and carried into the day.
pub open spec fn shift(t: LocalDateTime, seconds: int) -> LocalDateTime {
    let total = t.secs + seconds;
    LocalDateTime {
        day: (t.day + total / SECS_PER_DAY as int) as i64,
        secs: (total % SECS_PER_DAY as int) as u32,
        nanos: if t.nanos >= NANOS_PER_SEC {
            (t.nanos - NANOS_PER_SEC) as u32
        } else {
            t.nanos
        },
    }
}

/// Bound on the days handled by the local arithmetic, far beyond the range
/// of the calendar library.
pub open spec fn day_in_range(day: i64) -> bool {
    -0x1_0000_0000 <= day <= 0x1_0000_0000
}

/// Moves a local date-time forward by `seconds` (at most one day).
pub fn shift_local(t: LocalDateTime, seconds: u32) -> (r: LocalDateTime)
    requires
        0 < seconds <= SECS_PER_DAY,
        day_in_range(t.day),
    ensures
        r == shift(t, seconds as int),
        r.day <= t.day + 1 + (t.secs as int) / (SECS_PER_DAY as int),
        r.day >= t.day,
{
    let total: u64 = t.secs as u64 + seconds as u64;
    let carry: u64 = total / 86_400;
    let nanos = if t.nanos >= 1_000_000_000 {
        t.nanos - 1_000_000_000
    } else {
        t.nanos
    };
    LocalDateTime { day: t.day + carry as i64, secs: (total % 86_400) as u32, nanos: nanos }
}

/// Whether the calendar library knows the IANA time-zone name `zone`.
pub uninterp spec fn zone_known(zone: Seq<char>) -> bool;

/// Parses `zone` as a `chrono_tz::Tz` (its `FromStr`, an exact lookup of
/// the IANA name). The contract only names the answer.
#[verifier::external_body]
pub(crate) fn is_known_zone(zone: &str) -> (r: bool)
    ensures
        r == zone_known(zone@),
{
    zone.parse::<Tz>().is_ok()
}

/// The time of day that `NaiveTime::parse_from_str(text, format)`
/// reads, as (seconds since midnight, nanoseconds), or `None` when it fails.
pub uninterp spec fn parsed_clock_time(text: Seq<char>, format: Seq<char>) -> Option<(u32, u32)>;

/// The view of an optional time of day as a pair.
pub open spec fn clock_pair(t: Option<ClockTime>) -> Option<(u32, u32)> {
    match t {
        Some(c) => Some((c.secs, c.nanos)),
        None => None,
    }
}

/// Calls `NaiveTime::parse_from_str(text, format)`. The contract
/// names the result; besides, it claims only the invariant that every
/// `NaiveTime` keeps: fewer than 86,400 seconds, and fewer than two billion
/// nanoseconds (a leap second).
#[verifier::external_body]
pub(crate) fn parse_clock_time(text: &str, format: &str) -> (r: Option<ClockTime>)
    ensures
        clock_pair(r) == parsed_clock_time(text@, format@),
        r matches Some(t) ==> t.secs < 86_400 && t.nanos < 2_000_000_000,
{
    NaiveTime::parse_from_str(text, format).ok().map(
        |t| ClockTime { secs: t.num_seconds_from_midnight(), nanos: t.nanosecond() },
    )
}

/// The local date and time, in the zone named `zone`, of the instant
/// (`secs`, `nanos`): (day counted from January 1 of year 1, seconds since
/// midnight, nanoseconds), or `None` when the zone is unknown or the instant
/// is out of the library's range.
pub uninterp spec fn utc_to_local(zone: Seq<char>, secs: i64, nanos: u32) -> Option<(i32, u32, u32)>;

/// The view of an optional local date-time as a triple.
pub open spec fn local_triple(t: Option<LocalDateTime>) -> Option<(i32, u32, u32)> {
    match t {
        Some(l) => Some((l.day as i32, l.secs, l.nanos)),
        None => None,
    }
}

/// Converts an instant to local time: `DateTime::<Utc>::from_timestamp`,
/// then `TimeZone::offset_from_utc_datetime` of the `chrono_tz::Tz` named
/// `zone`, added with `NaiveDateTime::checked_add_offset` (which gives `None`
/// rather than leave the library's range). The contract names the result;
/// of the day it claims that it fits an `i32`, as `Datelike::num_days_from_ce`
/// returns one. It also claims the round trip: the local date-time, resolved
/// back in the same zone (`from_local_datetime`, named [`local_instants`]),
/// occurs at the instant itself. That holds because the offset added is the
/// one of the zone's span containing the instant, so the local time lies in
/// that span's local range, and chrono-tz's local lookup returns that span
/// (alone or with one neighbour in a fold; no point of the compiled zone data
/// lies in three local ranges). It is claimed for instants with fewer than a
/// billion nanoseconds and at least a year inside the library's range, where
/// subtracting either offset of a fold stays in range.
#[verifier::external_body]
pub(crate) fn local_clock_at(zone: &str, now: Instant) -> (r: Option<LocalDateTime>)
    ensures
        local_triple(r) == utc_to_local(zone@, now.secs, now.nanos),
        r matches Some(l) ==> i32::MIN <= l.day <= i32::MAX,
        r matches Some(l) ==> (round_trip_range(now) ==> occurs_at(zone@, l, now)),
{
    let tz = zone.parse::<Tz>().ok()?;
    let utc = DateTime::from_timestamp(now.secs, now.nanos)?.naive_utc();
    let local = utc.checked_add_offset(tz.offset_from_utc_datetime(&utc).fix())?;
    let time = local.time();
    Some(LocalDateTime {
        day: local.date().num_days_from_ce() as i64,
        secs: time.num_seconds_from_midnight(),
        nanos: time.nanosecond(),
    })
}

/// The instants at which the local date-time (`day`, `secs`, `nanos`) occurs
/// in the zone named `zone`, as (Unix seconds, nanoseconds) in the library's
/// order: none in a gap, one, or two in a fold. `None` when the zone is
/// unknown or the date-time cannot be formed.
pub uninterp spec fn local_instants(zone: Seq<char>, day: i64, secs: u32, nanos: u32) -> Option<
    Seq<(i64, u32)>,
>;

/// Whether the local date-time `l` occurs, in the zone named `zone`, at the
/// instant `t`: resolving `l` there lists `t`.
pub open spec fn occurs_at(zone: Seq<char>, l: LocalDateTime, t: Instant) -> bool {
    local_instants(zone, l.day, l.secs, l.nanos) matches Some(s) && s.contains((t.secs, t.nanos))
}

/// Instants with nanoseconds below one second and at least a year inside
/// the calendar library's range.
pub open spec fn round_trip_range(t: Instant) -> bool {
    t.nanos < NANOS_PER_SEC && -8_000_000_000_000 <= t.secs <= 8_000_000_000_000
}

/// Whether the local date-time `l` occurs in the zone at the instant `t`,
/// asked of the time-zone library.
pub fn check_occurs_at(zone: &str, l: LocalDateTime, t: Instant) -> (b: bool)
    ensures
        b == occurs_at(zone@, l, t),
{
    match resolve_in_zone(zone, l) {
        LocalResolution::Unrepresentable => false,
        LocalResolution::Nonexistent => {
            assert(!Seq::<(i64, u32)>::empty().contains((t.secs, t.nanos)));
            false
        },
        LocalResolution::Single(a) => {
            let b = a.secs == t.secs && a.nanos == t.nanos;
            proof {
                let s = seq![(a.secs, a.nanos)];
                if b {
                    assert(s[0] == (t.secs, t.nanos));
                } else {
                    assert forall|i: int| 0 <= i < s.len() implies s[i] != (t.secs, t.nanos) by {}
                }
            }
            b
        },
        LocalResolution::Ambiguous(a, c) => {
            let b = (a.secs == t.secs && a.nanos == t.nanos) || (c.secs == t.secs && c.nanos
                == t.nanos);
            proof {
                let s = seq![(a.secs, a.nanos), (c.secs, c.nanos)];
                if a.secs == t.secs && a.nanos == t.nanos {
                    assert(s[0] == (t.secs, t.nanos));
                } else if b {
                    assert(s[1] == (t.secs, t.nanos));
                } else {
                    assert forall|i: int| 0 <= i < s.len() implies s[i] != (t.secs, t.nanos) by {}
                }
            }
            b
        },
    }
}

/// The view of a resolution as the list of instants.
pub open spec fn resolution_instants(r: LocalResolution) -> Option<Seq<(i64, u32)>> {
    match r {
        LocalResolution::Unrepresentable => None,
        LocalResolution::Nonexistent => Some(Seq::empty()),
        LocalResolution::Single(a) => Some(seq![(a.secs, a.nanos)]),
        LocalResolution::Ambiguous(a, b) => Some(seq![(a.secs, a.nanos), (b.secs, b.nanos)]),
    }
}

/// Calls `TimeZone::from_local_datetime` of the `chrono_tz::Tz` named `zone`
/// on the local date-time, and reads each result back as an instant. The
/// contract names the result and claims nothing of the zone's rules.
#[verifier::external_body]
pub(crate) fn resolve_in_zone(zone: &str, local: LocalDateTime) -> (r: LocalResolution)
    ensures
        resolution_instants(r) == local_instants(zone@, local.day, local.secs, local.nanos),
{
    let Ok(tz) = zone.parse::<Tz>() else { return LocalResolution::Unrepresentable };
    let date = i32::try_from(local.day).ok().and_then(NaiveDate::from_num_days_from_ce_opt);
    let time = NaiveTime::from_num_seconds_from_midnight_opt(local.secs, local.nanos);
    let (Some(date), Some(time)) = (date, time) else { return LocalResolution::Unrepresentable };
    match tz.from_local_datetime(&date.and_time(time)) {
        LocalResult::Single(a) => LocalResolution::Single(Instant { secs: a.timestamp(), nanos: a.timestamp_subsec_nanos() }),
        LocalResult::Ambiguous(a, b) => LocalResolution::Ambiguous(Instant { secs: a.timestamp(), nanos: a.timestamp_subsec_nanos() }, Instant { secs: b.timestamp(), nanos: b.timestamp_subsec_nanos() }),
        LocalResult::None => LocalResolution::Nonexistent,
    }
}

} // verus!
