use chrono::{Datelike, NaiveDate, TimeZone, Utc};
use dscrd_status::clock::{ClockTime, Instant, LocalDateTime};
use dscrd_status::schedule::{
    parse_time, plan_window, resolve_local, ResolveError, Schedule, ScheduleError, WindowState,
};

fn utc(y: i32, mo: u32, d: u32, h: u32, mi: u32) -> Instant {
    let t = Utc.with_ymd_and_hms(y, mo, d, h, mi, 0).unwrap();
    Instant { secs: t.timestamp(), nanos: 0 }
}

fn hm(h: u32, m: u32) -> ClockTime {
    ClockTime { secs: h * 3600 + m * 60, nanos: 0 }
}

fn window(start: &str, end: &str, tz: Option<&str>) -> Schedule {
    Schedule::from_env(Some(start), Some(end), tz).unwrap()
}

#[test]
fn parse_time_accepts_hours_minutes_and_seconds() {
    assert_eq!(parse_time("09:30"), Some(hm(9, 30)));
    assert_eq!(parse_time("21:45"), Some(hm(21, 45)));
    assert_eq!(parse_time("7:15"), Some(hm(7, 15)));
    assert_eq!(parse_time("21:45:10"), Some(ClockTime { secs: 21 * 3600 + 45 * 60 + 10, nanos: 0 }));
    assert_eq!(parse_time("24:00"), None);
    assert_eq!(parse_time("17:60"), None);
    assert_eq!(parse_time("9am"), None);
    assert_eq!(parse_time(""), None);
}

#[test]
fn parse_time_reads_leap_second() {
    assert_eq!(
        parse_time("10:30:60"),
        Some(ClockTime { secs: 10 * 3600 + 30 * 60 + 59, nanos: 1_000_000_000 })
    );
}

#[test]
fn from_env_without_bounds_is_always() {
    assert!(matches!(Schedule::from_env(None, None, None), Ok(Schedule::Always)));
    assert!(matches!(Schedule::from_env(None, None, Some("Nowhere/City")), Ok(Schedule::Always)));
}

#[test]
fn from_env_requires_both_bounds() {
    assert!(matches!(Schedule::from_env(Some("09:00"), None, None), Err(ScheduleError::UnpairedBounds)));
    assert!(matches!(Schedule::from_env(None, Some("17:00"), None), Err(ScheduleError::UnpairedBounds)));
}

#[test]
fn from_env_reports_invalid_times_in_order() {
    match Schedule::from_env(Some("9am"), Some("nope"), None) {
        Err(ScheduleError::InvalidStart { value }) => assert_eq!(value, "9am"),
        other => panic!("unexpected result {:?}", other),
    }
    match Schedule::from_env(Some("09:00"), Some("nope"), None) {
        Err(ScheduleError::InvalidEnd { value }) => assert_eq!(value, "nope"),
        other => panic!("unexpected result {:?}", other),
    }
}

#[test]
fn from_env_rejects_equal_bounds() {
    assert!(matches!(
        Schedule::from_env(Some("09:00"), Some("09:00:00"), None),
        Err(ScheduleError::SameStartAndEnd)
    ));
}

#[test]
fn from_env_checks_timezone_and_defaults_to_utc() {
    match Schedule::from_env(Some("09:00"), Some("17:00"), Some("Mars/Base")) {
        Err(ScheduleError::InvalidTimezone { value }) => assert_eq!(value, "Mars/Base"),
        other => panic!("unexpected result {:?}", other),
    }
    match window("09:00", "17:30", None) {
        Schedule::Window { timezone, start, end } => {
            assert_eq!(timezone, "UTC");
            assert_eq!(start, hm(9, 0));
            assert_eq!(end, hm(17, 30));
        }
        other => panic!("unexpected schedule {:?}", other),
    }
    match window("22:00", "06:00", Some("America/Chicago")) {
        Schedule::Window { timezone, .. } => assert_eq!(timezone, "America/Chicago"),
        other => panic!("unexpected schedule {:?}", other),
    }
}

#[test]
fn always_schedule_is_always_active() {
    assert!(matches!(Schedule::Always.state_at(utc(2024, 1, 15, 12, 0)), Ok(WindowState::Always)));
}

#[test]
fn daytime_window_inside_ends_today() {
    let s = window("09:00", "17:30", None);
    match s.state_at(utc(2024, 1, 15, 12, 0)) {
        Ok(WindowState::Active { window_end, timezone }) => {
            assert_eq!(window_end, utc(2024, 1, 15, 17, 30));
            assert_eq!(timezone, "UTC");
        }
        other => panic!("unexpected state {:?}", other),
    }
    match s.state_at(utc(2024, 1, 15, 9, 0)) {
        Ok(WindowState::Active { window_end, .. }) => assert_eq!(window_end, utc(2024, 1, 15, 17, 30)),
        other => panic!("unexpected state {:?}", other),
    }
}

#[test]
fn daytime_window_before_and_after() {
    let s = window("09:00", "17:30", None);
    match s.state_at(utc(2024, 1, 15, 8, 0)) {
        Ok(WindowState::Inactive { next_start, .. }) => assert_eq!(next_start, utc(2024, 1, 15, 9, 0)),
        other => panic!("unexpected state {:?}", other),
    }
    match s.state_at(utc(2024, 1, 15, 17, 30)) {
        Ok(WindowState::Inactive { next_start, .. }) => assert_eq!(next_start, utc(2024, 1, 16, 9, 0)),
        other => panic!("unexpected state {:?}", other),
    }
}

#[test]
fn overnight_window_spans_midnight() {
    let s = window("22:00", "06:00", Some("Asia/Taipei"));
    // 23:00 in Taipei: active until 06:00 the next morning.
    match s.state_at(utc(2024, 1, 15, 15, 0)) {
        Ok(WindowState::Active { window_end, timezone }) => {
            assert_eq!(window_end, utc(2024, 1, 15, 22, 0));
            assert_eq!(timezone, "Asia/Taipei");
        }
        other => panic!("unexpected state {:?}", other),
    }
    // 02:00 in Taipei: active until 06:00 the same morning.
    match s.state_at(utc(2024, 1, 15, 18, 0)) {
        Ok(WindowState::Active { window_end, .. }) => assert_eq!(window_end, utc(2024, 1, 15, 22, 0)),
        other => panic!("unexpected state {:?}", other),
    }
    // 12:00 in Taipei: inactive until 22:00.
    match s.state_at(utc(2024, 1, 15, 4, 0)) {
        Ok(WindowState::Inactive { next_start, .. }) => assert_eq!(next_start, utc(2024, 1, 15, 14, 0)),
        other => panic!("unexpected state {:?}", other),
    }
}

#[test]
fn start_in_dst_gap_moves_to_first_existing_minute() {
    // 02:30 does not exist in Chicago on 2024-03-10; 03:00 CDT is 08:00 UTC.
    let s = window("02:30", "05:00", Some("America/Chicago"));
    match s.state_at(utc(2024, 3, 10, 6, 0)) {
        Ok(WindowState::Inactive { next_start, .. }) => assert_eq!(next_start, utc(2024, 3, 10, 8, 0)),
        other => panic!("unexpected state {:?}", other),
    }
}

#[test]
fn start_in_dst_fold_takes_earlier_instant() {
    // 01:30 happens twice in Chicago on 2024-11-03: 06:30 UTC (CDT) and 07:30 UTC (CST).
    let s = window("01:30", "03:00", Some("America/Chicago"));
    match s.state_at(utc(2024, 11, 3, 5, 0)) {
        Ok(WindowState::Inactive { next_start, .. }) => assert_eq!(next_start, utc(2024, 11, 3, 6, 30)),
        other => panic!("unexpected state {:?}", other),
    }
}

#[test]
fn resolve_local_in_utc_is_direct() {
    let day = NaiveDate::from_ymd_opt(2024, 1, 15).unwrap().num_days_from_ce() as i64;
    let local = LocalDateTime { day, secs: 3600, nanos: 0 };
    assert_eq!(resolve_local("UTC", local), Ok(utc(2024, 1, 15, 1, 0)));
}

#[test]
fn resolve_local_with_unknown_zone_is_out_of_range() {
    let local = LocalDateTime { day: 738900, secs: 0, nanos: 0 };
    assert_eq!(resolve_local("Nowhere/City", local), Err(ResolveError::OutOfRange));
}

#[test]
fn state_at_out_of_range_instant() {
    let s = window("09:00", "17:00", None);
    assert!(matches!(s.state_at(Instant { secs: i64::MAX, nanos: 0 }), Err(ResolveError::OutOfRange)));
}

#[test]
fn plan_window_picks_next_boundary() {
    let (active, b) = plan_window(hm(22, 0), hm(6, 0), 100, hm(23, 0));
    assert!(active);
    assert_eq!(b, LocalDateTime { day: 101, secs: 6 * 3600, nanos: 0 });
    let (active, b) = plan_window(hm(9, 0), hm(17, 0), 100, hm(18, 0));
    assert!(!active);
    assert_eq!(b, LocalDateTime { day: 101, secs: 9 * 3600, nanos: 0 });
    let (active, b) = plan_window(hm(22, 0), hm(6, 0), 100, hm(12, 0));
    assert!(!active);
    assert_eq!(b, LocalDateTime { day: 100, secs: 22 * 3600, nanos: 0 });
}

#[test]
fn boundary_in_skipped_day_is_unresolvable() {
    // Samoa skipped 2011-12-30 entirely; noon that day never happened.
    let s = window("12:00", "13:00", Some("Pacific/Apia"));
    let day = NaiveDate::from_ymd_opt(2011, 12, 30).unwrap().num_days_from_ce() as i64;
    match s.state_at(utc(2011, 12, 30, 0, 0)) {
        Err(ResolveError::Unresolvable { local }) => {
            assert_eq!(local, LocalDateTime { day, secs: 12 * 3600, nanos: 0 })
        }
        other => panic!("unexpected state {:?}", other),
    }
}

#[test]
fn instants_whose_local_time_leaves_the_calendar_are_out_of_range() {
    let tokyo = window("09:00", "17:00", Some("Asia/Tokyo"));
    let last = chrono::DateTime::<Utc>::MAX_UTC;
    let now = Instant { secs: last.timestamp(), nanos: 0 };
    assert!(matches!(tokyo.state_at(now), Err(ResolveError::OutOfRange)));
    let chicago = window("09:00", "17:00", Some("America/Chicago"));
    let first = chrono::DateTime::<Utc>::MIN_UTC;
    let now = Instant { secs: first.timestamp(), nanos: 0 };
    assert!(matches!(chicago.state_at(now), Err(ResolveError::OutOfRange)));
}

#[test]
fn plan_stays_until_boundary_and_flips_there() {
    let (start, end) = (hm(22, 0), hm(6, 0));
    let (active, b) = plan_window(start, end, 100, hm(23, 0));
    assert!(active);
    // Every later local time before the boundary gives the same plan.
    for (day, t) in [(100, hm(23, 59)), (101, hm(0, 0)), (101, hm(5, 59))] {
        assert_eq!(plan_window(start, end, day, t), (true, b));
    }
    // At the boundary the window is over.
    let (after, next) = plan_window(start, end, b.day, ClockTime { secs: b.secs, nanos: b.nanos });
    assert!(!after);
    assert_eq!(next, LocalDateTime { day: 101, secs: 22 * 3600, nanos: 0 });
}
