//! The daily active window: when the presence session runs, and until when.

use vstd::prelude::*;
use vstd::string::*;
use crate::text::opt_str_view;
use crate::clock::{
    at, check_occurs_at, clock_le, clock_lt, clock_pair, occurs_at, round_trip_range, day_in_range, earlier, earlier_instant, instant_lt, is_known_zone,
    local_clock_at, local_instants, local_lt, local_triple, parse_clock_time, parsed_clock_time,
    resolution_instants, resolve_in_zone, shift, shift_local, time_of, utc_to_local, zone_known,
    ClockTime, Instant, LocalDateTime, LocalResolution,
};

verus! {

/// When the session is active: always, or daily between two local times of
/// day in an IANA time zone (an end before the start spans midnight).
#[derive(Debug, Clone)]
pub enum Schedule {
    Always,
    Window { timezone: String, start: ClockTime, end: ClockTime },
}

/// Where an instant falls relative to the schedule.
#[derive(Debug, Clone)]
pub enum WindowState {
    Always,
    Active { window_end: Instant, timezone: String },
    Inactive { next_start: Instant, timezone: String },
}

/// Why a schedule cannot be built from its settings.
#[derive(Debug, Clone)]
pub enum ScheduleError {
    /// Only one of the start and the end was given.
    UnpairedBounds,
    /// The start is not a 24-hour time.
    InvalidStart { value: String },
    /// The end is not a 24-hour time.
    InvalidEnd { value: String },
    /// The start and the end are the same time.
    SameStartAndEnd,
    /// The time zone is not a known IANA name.
    InvalidTimezone { value: String },
}

/// Why a window boundary cannot be turned into an instant.
#[derive(Debug, Clone, Copy, PartialEq, Eq, Structural)]
pub enum ResolveError {
    /// The instant or local date-time lies outside what the time-zone library handles.
    OutOfRange,
    /// Neither the local time nor any minute of the three hours after it exists in the zone.
    Unresolvable { local: LocalDateTime },
}

/// The mathematical value of a [`Schedule`].
pub enum ScheduleView {
    Always,
    Window { timezone: Seq<char>, start: ClockTime, end: ClockTime },
}

/// The mathematical value of a [`WindowState`].
pub enum WindowStateView {
    Always,
    Active { window_end: Instant, timezone: Seq<char> },
    Inactive { next_start: Instant, timezone: Seq<char> },
}

/// The mathematical value of a [`ScheduleError`].
pub enum ScheduleErrorView {
    UnpairedBounds,
    InvalidStart { value: Seq<char> },
    InvalidEnd { value: Seq<char> },
    SameStartAndEnd,
    InvalidTimezone { value: Seq<char> },
}

impl View for Schedule {
    type V = ScheduleView;

    open spec fn view(&self) -> ScheduleView {
        match self {
            Schedule::Always => ScheduleView::Always,
            Schedule::Window { timezone, start, end } => ScheduleView::Window {
                timezone: timezone@,
                start: *start,
                end: *end,
            },
        }
    }
}

impl View for WindowState {
    type V = WindowStateView;

    open spec fn view(&self) -> WindowStateView {
        match self {
            WindowState::Always => WindowStateView::Always,
            WindowState::Active { window_end, timezone } => WindowStateView::Active {
                window_end: *window_end,
                timezone: timezone@,
            },
            WindowState::Inactive { next_start, timezone } => WindowStateView::Inactive {
                next_start: *next_start,
                timezone: timezone@,
            },
        }
    }
}

impl View for ScheduleError {
    type V = ScheduleErrorView;

    open spec fn view(&self) -> ScheduleErrorView {
        match self {
            ScheduleError::UnpairedBounds => ScheduleErrorView::UnpairedBounds,
            ScheduleError::InvalidStart { value } => ScheduleErrorView::InvalidStart { value: value@ },
            ScheduleError::InvalidEnd { value } => ScheduleErrorView::InvalidEnd { value: value@ },
            ScheduleError::SameStartAndEnd => ScheduleErrorView::SameStartAndEnd,
            ScheduleError::InvalidTimezone { value } => ScheduleErrorView::InvalidTimezone {
                value: value@,
            },
        }
    }
}

/// The view of a schedule result.
pub open spec fn schedule_result_view(r: Result<Schedule, ScheduleError>) -> Result<
    ScheduleView,
    ScheduleErrorView,
> {
    match r {
        Ok(s) => Ok(s@),
        Err(e) => Err(e@),
    }
}

/// The view of a window-state result.
pub open spec fn window_result_view(r: Result<WindowState, ResolveError>) -> Result<
    WindowStateView,
    ResolveError,
> {
    match r {
        Ok(w) => Ok(w@),
        Err(e) => Err(e),
    }
}

/// A 24-hour time read as `%H:%M`, or else as `%H:%M:%S`.
pub open spec fn spec_parse_time(value: Seq<char>) -> Option<(u32, u32)> {
    match parsed_clock_time(value, "%H:%M"@) {
        Some(t) => Some(t),
        None => parsed_clock_time(value, "%H:%M:%S"@),
    }
}

/// A time of day from its (seconds, nanoseconds) pair.
pub open spec fn clock_of(p: (u32, u32)) -> ClockTime {
    ClockTime { secs: p.0, nanos: p.1 }
}

/// The time zone of a window: the one given, or UTC.
pub open spec fn zone_or_utc(timezone: Option<Seq<char>>) -> Seq<char> {
    match timezone {
        Some(z) => z,
        None => "UTC"@,
    }
}

/// The schedule that the settings describe, or why they describe none.
pub open spec fn spec_from_env(
    start: Option<Seq<char>>,
    end: Option<Seq<char>>,
    timezone: Option<Seq<char>>,
) -> Result<ScheduleView, ScheduleErrorView> {
    match (start, end) {
        (None, None) => Ok(ScheduleView::Always),
        (Some(s), Some(e)) => match spec_parse_time(s) {
            None => Err(ScheduleErrorView::InvalidStart { value: s }),
            Some(a) => match spec_parse_time(e) {
                None => Err(ScheduleErrorView::InvalidEnd { value: e }),
                Some(b) => if a == b {
                    Err(ScheduleErrorView::SameStartAndEnd)
                } else if zone_known(zone_or_utc(timezone)) {
                    Ok(
                        ScheduleView::Window {
                            timezone: zone_or_utc(timezone),
                            start: clock_of(a),
                            end: clock_of(b),
                        },
                    )
                } else {
                    Err(ScheduleErrorView::InvalidTimezone { value: zone_or_utc(timezone) })
                },
            },
        },
        _ => Err(ScheduleErrorView::UnpairedBounds),
    }
}

/// Reads a 24-hour time such as `09:30` or `21:45:10`.
pub fn parse_time(value: &str) -> (r: Option<ClockTime>)
    ensures
        clock_pair(r) == spec_parse_time(value@),
        r matches Some(t) ==> valid_clock(t),
{
    match parse_clock_time(value, "%H:%M") {
        Some(t) => Some(t),
        None => parse_clock_time(value, "%H:%M:%S"),
    }
}

impl Schedule {
    /// Builds the schedule from the start, end and time-zone settings: no
    /// window when neither bound is set; both bounds must be set together,
    /// must be 24-hour times and must differ; the zone defaults to UTC.
    pub fn from_env(
        active_start: Option<&str>,
        active_end: Option<&str>,
        timezone: Option<&str>,
    ) -> (r: Result<Schedule, ScheduleError>)
        ensures
            schedule_result_view(r) == spec_from_env(
                opt_str_view(active_start),
                opt_str_view(active_end),
                opt_str_view(timezone),
            ),
            r matches Ok(s) ==> s.wf(),
    {
        match (active_start, active_end) {
            (None, None) => Ok(Schedule::Always),
            (Some(s), Some(e)) => {
                let start = match parse_time(s) {
                    Some(t) => t,
                    None => return Err(ScheduleError::InvalidStart { value: String::from_str(s) }),
                };
                let end = match parse_time(e) {
                    Some(t) => t,
                    None => return Err(ScheduleError::InvalidEnd { value: String::from_str(e) }),
                };
                if start.same_as(&end) {
                    return Err(ScheduleError::SameStartAndEnd);
                }
                let zone = match timezone {
                    Some(z) => z,
                    None => "UTC",
                };
                if !is_known_zone(zone) {
                    return Err(ScheduleError::InvalidTimezone { value: String::from_str(zone) });
                }
                Ok(Schedule::Window { timezone: String::from_str(zone), start, end })
            },
            _ => Err(ScheduleError::UnpairedBounds),
        }
    }
}


/// Whether a time of day lies inside the daily window from `start` to `end`
/// (a window whose end is not after its start spans midnight).
pub open spec fn in_window(start: ClockTime, end: ClockTime, time: ClockTime) -> bool {
    if clock_lt(start, end) {
        clock_le(start, time) && clock_lt(time, end)
    } else {
        clock_le(start, time) || clock_lt(time, end)
    }
}

/// For the local time `time` on day `today`: whether the window is active,
/// and the local date-time of the boundary to wait for (the window's end when
/// active, its next start otherwise).
pub open spec fn window_plan(start: ClockTime, end: ClockTime, today: i64, time: ClockTime) -> (
    bool,
    LocalDateTime,
) {
    if clock_lt(start, end) {
        if clock_le(start, time) && clock_lt(time, end) {
            (true, at(today, end))
        } else if clock_lt(time, start) {
            (false, at(today, start))
        } else {
            (false, at((today + 1) as i64, start))
        }
    } else if clock_le(start, time) || clock_lt(time, end) {
        if clock_lt(time, end) {
            (true, at(today, end))
        } else {
            (true, at((today + 1) as i64, end))
        }
    } else {
        (false, at(today, start))
    }
}

/// The boundary plan for a local time.
pub fn plan_window(start: ClockTime, end: ClockTime, today: i64, time: ClockTime) -> (r: (
    bool,
    LocalDateTime,
))
    requires
        today < i64::MAX,
    ensures
        r == window_plan(start, end, today, time),
{
    if start.before(&end) {
        if !time.before(&start) && time.before(&end) {
            (true, LocalDateTime { day: today, secs: end.secs, nanos: end.nanos })
        } else if time.before(&start) {
            (false, LocalDateTime { day: today, secs: start.secs, nanos: start.nanos })
        } else {
            (false, LocalDateTime { day: today + 1, secs: start.secs, nanos: start.nanos })
        }
    } else if !time.before(&start) || time.before(&end) {
        if time.before(&end) {
            (true, LocalDateTime { day: today, secs: end.secs, nanos: end.nanos })
        } else {
            (true, LocalDateTime { day: today + 1, secs: end.secs, nanos: end.nanos })
        }
    } else {
        (false, LocalDateTime { day: today, secs: start.secs, nanos: start.nanos })
    }
}

/// Seconds from one probe of a local time in a gap to the next.
pub const PROBE_STEP_SECS: u32 = 60;

/// How far past a local time in a gap the probes reach, in seconds.
pub const PROBE_LIMIT_SECS: u32 = 10_800;

/// The `k`-th probe after a local time that falls into a gap: `k` minutes later.
pub open spec fn probe_at(naive: LocalDateTime, k: nat) -> LocalDateTime
    decreases k,
{
    if k <= 1 {
        shift(naive, PROBE_STEP_SECS as int)
    } else {
        shift(probe_at(naive, (k - 1) as nat), PROBE_STEP_SECS as int)
    }
}

/// Seconds from day 0 to a local date-time.
pub open spec fn total_secs(t: LocalDateTime) -> int {
    t.day * 86_400 + t.secs
}

/// A whole-second shift adds exactly those seconds and leaves a normal time of day.
pub proof fn lemma_shift_total(t: LocalDateTime, seconds: int)
    requires
        0 < seconds <= 86_400,
        day_in_range(t.day),
    ensures
        total_secs(shift(t, seconds)) == total_secs(t) + seconds,
        shift(t, seconds).secs < 86_400,
        t.nanos < 2_000_000_000 ==> shift(t, seconds).nanos < 1_000_000_000,
        t.secs < 86_400 ==> shift(t, seconds).day <= t.day + 1,
{
    let total = t.secs + seconds;
    assert(total == (total / 86_400) * 86_400 + total % 86_400) by (nonlinear_arith)
        requires
            total >= 0,
    ;
}

/// The probes march forward a minute at a time from the gap.
pub proof fn lemma_probe_at(naive: LocalDateTime, k: nat)
    requires
        resolvable_day(naive.day),
        naive.secs < 86_400,
        naive.nanos < 2_000_000_000,
        k <= 180,
    ensures
        total_secs(probe_at(naive, k)) == total_secs(naive) + 60 * (if k <= 1 {
            1
        } else {
            k
        }),
        probe_at(naive, k).secs < 86_400,
        probe_at(naive, k).nanos == shift(naive, 60).nanos,
        naive.day <= probe_at(naive, k).day <= naive.day + 2,
    decreases k,
{
    lemma_shift_total(naive, 60);
    if k > 1 {
        lemma_probe_at(naive, (k - 1) as nat);
        let p = probe_at(naive, (k - 1) as nat);
        lemma_shift_total(p, 60);
    }
    let q = probe_at(naive, k);
    assert(naive.day <= q.day <= naive.day + 2) by (nonlinear_arith)
        requires
            q.day * 86_400 + q.secs == naive.day * 86_400 + naive.secs + 60 * (if k <= 1 {
                1
            } else {
                k
            }),
            q.secs < 86_400,
            naive.secs < 86_400,
            k <= 180,
    ;
}

/// A probe still before the three-hour limit is one of the first 179.
pub proof fn lemma_probe_before_limit(naive: LocalDateTime, k: nat)
    requires
        resolvable_day(naive.day),
        naive.secs < 86_400,
        naive.nanos < 2_000_000_000,
        k <= 180,
    ensures
        local_lt(probe_at(naive, k), shift(naive, PROBE_LIMIT_SECS as int)) ==> k < 180,
{
    lemma_probe_at(naive, k);
    lemma_shift_total(naive, 10_800);
    let p = probe_at(naive, k);
    let l = shift(naive, 10_800);
    if local_lt(p, l) {
        if p.day < l.day {
            assert(total_secs(p) < total_secs(l)) by (nonlinear_arith)
                requires
                    p.day < l.day,
                    p.secs < 86_400,
                    total_secs(p) == p.day * 86_400 + p.secs,
                    total_secs(l) == l.day * 86_400 + l.secs,
            ;
        }
    }
}

/// The instant that a list of matching instants resolves to: the only one,
/// or the earlier of two.
pub open spec fn pick(s: Seq<(i64, u32)>) -> Instant {
    if s.len() == 1 {
        Instant { secs: s[0].0, nanos: s[0].1 }
    } else {
        earlier(Instant { secs: s[0].0, nanos: s[0].1 }, Instant { secs: s[1].0, nanos: s[1].1 })
    }
}

/// Resolution from the `k`-th probe on: the first probe that exists in the
/// zone gives the instant; once a probe reaches the three-hour limit (the
/// 180th does) the local time is unresolvable.
pub open spec fn spec_probe(zone: Seq<char>, naive: LocalDateTime, k: nat) -> Result<
    Instant,
    ResolveError,
>
    decreases 180 - k,
{
    let p = probe_at(naive, k);
    match local_instants(zone, p.day, p.secs, p.nanos) {
        None => Err(ResolveError::OutOfRange),
        Some(s) => if s.len() > 0 {
            Ok(pick(s))
        } else if local_lt(p, shift(naive, PROBE_LIMIT_SECS as int)) && k < 180 {
            spec_probe(zone, naive, k + 1)
        } else {
            Err(ResolveError::Unresolvable { local: naive })
        },
    }
}

/// The instant of a local date-time in a zone: the only one, the earlier of
/// two in a fold, and in a gap the first minute after it that exists, up to
/// three hours later.
pub open spec fn spec_resolve(zone: Seq<char>, naive: LocalDateTime) -> Result<
    Instant,
    ResolveError,
> {
    match local_instants(zone, naive.day, naive.secs, naive.nanos) {
        None => Err(ResolveError::OutOfRange),
        Some(s) => if s.len() > 0 {
            Ok(pick(s))
        } else {
            spec_probe(zone, naive, 1)
        },
    }
}

/// Days that the resolution handles without overflow.
pub open spec fn resolvable_day(day: i64) -> bool {
    -0x1_0000_0000 <= day <= 0xffff_0000
}

/// Turns a local date-time in a zone into an instant.
pub fn resolve_local(zone: &str, naive: LocalDateTime) -> (r: Result<Instant, ResolveError>)
    requires
        resolvable_day(naive.day),
        naive.secs < 86_400,
        naive.nanos < 2_000_000_000,
    ensures
        r == spec_resolve(zone@, naive),
{
    match resolve_in_zone(zone, naive) {
        LocalResolution::Unrepresentable => Err(ResolveError::OutOfRange),
        LocalResolution::Single(a) => Ok(a),
        LocalResolution::Ambiguous(a, b) => Ok(earlier_instant(a, b)),
        LocalResolution::Nonexistent => {
            let limit = shift_local(naive, PROBE_LIMIT_SECS);
            let mut probe = shift_local(naive, PROBE_STEP_SECS);
            let ghost mut k: nat = 1;
            proof {
                lemma_probe_at(naive, 1);
            }
            loop
                invariant
                    1 <= k <= 180,
                    resolvable_day(naive.day),
                    naive.secs < 86_400,
                    naive.nanos < 2_000_000_000,
                    probe == probe_at(naive, k),
                    limit == shift(naive, PROBE_LIMIT_SECS as int),
                    spec_resolve(zone@, naive) == spec_probe(zone@, naive, k),
                    naive.day <= probe.day <= naive.day + 2,
                decreases 180 - k,
            {
                match resolve_in_zone(zone, probe) {
                    LocalResolution::Unrepresentable => return Err(ResolveError::OutOfRange),
                    LocalResolution::Single(a) => return Ok(a),
                    LocalResolution::Ambiguous(a, b) => return Ok(earlier_instant(a, b)),
                    LocalResolution::Nonexistent => {
                        if probe.before(&limit) {
                            proof {
                                lemma_probe_before_limit(naive, k);
                                lemma_probe_at(naive, k + 1);
                            }
                            probe = shift_local(probe, PROBE_STEP_SECS);
                            proof {
                                k = k + 1;
                                assert(total_secs(probe) == total_secs(naive) + 60 * k);
                            }
                        } else {
                            return Err(ResolveError::Unresolvable { local: naive });
                        }
                    },
                }
            }
        },
    }
}

/// Where an instant falls relative to a schedule, with the instant at which
/// that changes.
pub open spec fn spec_state_at(s: ScheduleView, now: Instant) -> Result<WindowStateView, ResolveError> {
    match s {
        ScheduleView::Always => Ok(WindowStateView::Always),
        ScheduleView::Window { timezone, start, end } => match utc_to_local(
            timezone,
            now.secs,
            now.nanos,
        ) {
            None => Err(ResolveError::OutOfRange),
            Some(l) => {
                let plan = window_plan(start, end, l.0 as i64, ClockTime { secs: l.1, nanos: l.2 });
                match spec_resolve(timezone, plan.1) {
                    Err(e) => Err(e),
                    Ok(i) => Ok(
                        if plan.0 {
                            WindowStateView::Active { window_end: i, timezone: timezone }
                        } else {
                            WindowStateView::Inactive { next_start: i, timezone: timezone }
                        },
                    ),
                }
            },
        },
    }
}

/// A time of day that the calendar library can hold: before midnight, with
/// at most one extra second of nanoseconds (a leap second).
pub open spec fn valid_clock(t: ClockTime) -> bool {
    t.secs < 86_400 && t.nanos < 2_000_000_000
}

/// What a reported state says of the wall clock: a window schedule is
/// reported active exactly when the local time at which `now` occurs in the
/// zone lies in the window (for instants where the round trip is claimed),
/// and never as always on.
pub open spec fn wall_clock_agrees(s: ScheduleView, now: Instant, w: WindowStateView) -> bool {
    match s {
        ScheduleView::Always => w is Always,
        ScheduleView::Window { timezone, start, end } => {
            &&& !(w is Always)
            &&& round_trip_range(now) ==> exists|l: LocalDateTime|
                #[trigger] occurs_at(timezone, l, now) && (w is Active <==> in_window(
                    start,
                    end,
                    time_of(l),
                ))
        },
    }
}

impl Schedule {
    /// The window's bounds are times of day that the calendar library can hold.
    pub open spec fn wf(&self) -> bool {
        match self {
            Schedule::Always => true,
            Schedule::Window { start, end, .. } => valid_clock(*start) && valid_clock(*end),
        }
    }

    /// Where `now` falls relative to the schedule: always on, inside the
    /// window (with the instant the window ends) or outside it (with the
    /// instant the next window starts).
    pub fn state_at(&self, now: Instant) -> (r: Result<WindowState, ResolveError>)
        requires
            self.wf(),
        ensures
            window_result_view(r) == spec_state_at(self@, now),
            r matches Ok(w) ==> wall_clock_agrees(self@, now, w@),
    {
        match self {
            Schedule::Always => Ok(WindowState::Always),
            Schedule::Window { timezone, start, end } => {
                let local = match local_clock_at(timezone.as_str(), now) {
                    Some(l) => l,
                    None => return Err(ResolveError::OutOfRange),
                };
                // The local time must occur at `now` in the zone; the library's
                // contract says it does, and the zone data is asked again here.
                if now.nanos < 1_000_000_000 && -8_000_000_000_000 <= now.secs && now.secs
                    <= 8_000_000_000_000 && !check_occurs_at(timezone.as_str(), local, now) {
                    return Err(ResolveError::OutOfRange);
                }
                let time = ClockTime { secs: local.secs, nanos: local.nanos };
                let plan = plan_window(*start, *end, local.day, time);
                let instant = match resolve_local(timezone.as_str(), plan.1) {
                    Ok(i) => i,
                    Err(e) => return Err(e),
                };
                proof {
                    if round_trip_range(now) {
                        assert(occurs_at(timezone@, local, now) && (plan.0 == in_window(
                            *start,
                            *end,
                            time_of(local),
                        )));
                    }
                }
                if plan.0 {
                    Ok(WindowState::Active { window_end: instant, timezone: timezone.clone() })
                } else {
                    Ok(WindowState::Inactive { next_start: instant, timezone: timezone.clone() })
                }
            },
        }
    }
}

/// The window is active exactly when the local time of day lies inside it,
/// and the boundary waited for is the next occurrence, strictly after the
/// current local time, of the window's end (when active) or start (when not):
/// the same time of day one day earlier is not after it.
pub proof fn lemma_window_plan_next_boundary(
    start: ClockTime,
    end: ClockTime,
    today: i64,
    time: ClockTime,
)
    requires
        i64::MIN < today < i64::MAX,
    ensures
        window_plan(start, end, today, time).0 == in_window(start, end, time),
        time_of(window_plan(start, end, today, time).1) == (if window_plan(
            start,
            end,
            today,
            time,
        ).0 {
            end
        } else {
            start
        }),
        local_lt(at(today, time), window_plan(start, end, today, time).1),
        !local_lt(
            at(today, time),
            at(
                (window_plan(start, end, today, time).1.day - 1) as i64,
                time_of(window_plan(start, end, today, time).1),
            ),
        ),
{
}


/// Under a daily window, an instant is reported inside the window exactly
/// when its local time of day lies in the window; a window schedule is never
/// reported as always on.
pub proof fn lemma_state_follows_local_time(
    timezone: Seq<char>,
    start: ClockTime,
    end: ClockTime,
    now: Instant,
)
    requires
        utc_to_local(timezone, now.secs, now.nanos) is Some,
        spec_state_at(ScheduleView::Window { timezone, start, end }, now) is Ok,
    ensures
        ({
            let l = utc_to_local(timezone, now.secs, now.nanos).unwrap();
            let st = spec_state_at(ScheduleView::Window { timezone, start, end }, now).unwrap();
            &&& st is Active <==> in_window(start, end, ClockTime { secs: l.1, nanos: l.2 })
            &&& st is Inactive <==> !in_window(start, end, ClockTime { secs: l.1, nanos: l.2 })
        }),
{
}


/// A local time that exists resolves to one of its instants: the only one,
/// or in a fold the earlier of the two.
pub proof fn lemma_resolve_existing_takes_earliest(zone: Seq<char>, naive: LocalDateTime)
    requires
        local_instants(zone, naive.day, naive.secs, naive.nanos) matches Some(s) && 1 <= s.len()
            <= 2,
    ensures
        ({
            let s = local_instants(zone, naive.day, naive.secs, naive.nanos).unwrap();
            let r = spec_resolve(zone, naive).unwrap();
            &&& spec_resolve(zone, naive) is Ok
            &&& (r == Instant { secs: s[0].0, nanos: s[0].1 } || (s.len() == 2 && r == Instant {
                secs: s[1].0,
                nanos: s[1].1,
            }))
            &&& forall|i: int|
                0 <= i < s.len() ==> !instant_lt(
                    Instant { secs: s[i].0, nanos: s[i].1 },
                    r,
                )
        }),
{
}


/// Between the current local time and the boundary it reports, the plan does
/// not change: every local time from now up to (not including) the boundary
/// is in the same state and waits for the same boundary.
pub proof fn lemma_window_plan_stable_until_boundary(
    start: ClockTime,
    end: ClockTime,
    today: i64,
    time: ClockTime,
    day2: i64,
    time2: ClockTime,
)
    requires
        start != end,
        i64::MIN < today < i64::MAX - 1,
        !local_lt(at(day2, time2), at(today, time)),
        local_lt(at(day2, time2), window_plan(start, end, today, time).1),
    ensures
        window_plan(start, end, day2, time2) == window_plan(start, end, today, time),
{
}

/// At the boundary itself the state flips: a window that was active is over,
/// and one that was waiting has begun.
pub proof fn lemma_window_plan_flips_at_boundary(
    start: ClockTime,
    end: ClockTime,
    today: i64,
    time: ClockTime,
)
    requires
        start != end,
        i64::MIN < today < i64::MAX - 1,
    ensures
        ({
            let (active, b) = window_plan(start, end, today, time);
            window_plan(start, end, b.day, time_of(b)).0 == !active
        }),
{
}

} // verus!
