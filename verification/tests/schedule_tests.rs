use ajou_parser::schedule::{
    cooldown, local_time, morning_wait_from, plan, plan_at, wait_until_next_morning,
    wait_until_weekday, weekday_wait_from, window, LocalTime, Plan, Window,
};
use chrono::{DateTime, Datelike, Duration, TimeZone, Timelike, Utc};
use chrono_tz::Asia::Seoul;
use chrono_tz::Tz;

fn seoul(year: i32, month: u32, day: u32, hour: u32, minute: u32, second: u32) -> DateTime<Tz> {
    Seoul.with_ymd_and_hms(year, month, day, hour, minute, second).unwrap()
}

fn at(t: DateTime<Tz>) -> LocalTime {
    local_time(t.timestamp(), t.timestamp_subsec_nanos()).unwrap()
}

/// The rest that the loop takes at `now`, written with the calendar alone.
fn expected_rest(now: DateTime<Tz>) -> Option<i64> {
    let weekend = matches!(now.weekday(), chrono::Weekday::Sat | chrono::Weekday::Sun);
    if weekend {
        let monday = seoul(now.year(), now.month(), now.day(), 9, 0, 0)
            + Duration::days(7 - now.weekday().num_days_from_monday() as i64);
        Some((monday - now).num_seconds())
    } else if now.hour() >= 19 || now.hour() <= 8 {
        let mut morning = seoul(now.year(), now.month(), now.day(), 9, 30, 0);
        if now.hour() >= 19 {
            morning = morning + Duration::days(1);
        }
        Some((morning - now).num_seconds())
    } else {
        None
    }
}

#[test]
fn local_time_reads_the_seoul_clock() {
    // 2023-04-15 01:00:00 UTC is Saturday 10:00 in Seoul.
    let t = local_time(1681520400, 0).unwrap();
    assert_eq!(
        t,
        LocalTime {
            year: 2023,
            month: 4,
            day: 15,
            days_from_monday: 5,
            hour: 10,
            timestamp: 1681520400,
            nanosecond: 0,
        }
    );
    // Late evening UTC is the next day in Seoul.
    let t = local_time(1681516799, 999_999_999).unwrap();
    assert_eq!((t.year, t.month, t.day, t.hour), (2023, 4, 15, 8));
    assert_eq!(t.days_from_monday, 5);
    assert_eq!(t.nanosecond, 999_999_999);
    let t = local_time(0, 0).unwrap();
    assert_eq!((t.year, t.month, t.day, t.hour, t.days_from_monday), (1970, 1, 1, 9, 3));
}

#[test]
fn local_time_refuses_what_is_no_instant() {
    assert_eq!(local_time(0, 1_000_000_000), None);
    assert_eq!(local_time(59, 1_500_000_000), None);
    assert_eq!(local_time(i64::MAX, 0), None);
    assert_eq!(local_time(i64::MIN, 0), None);
}

#[test]
fn saturday_morning_rests_until_monday_nine() {
    let now = seoul(2023, 4, 15, 10, 0, 0);
    let monday = seoul(2023, 4, 17, 9, 0, 0);
    match plan(now.timestamp(), 0) {
        Some(Plan::Rest { window: Window::Weekend, seconds }) => {
            assert_eq!(now.timestamp() + seconds as i64, monday.timestamp());
            assert_eq!(seconds, 47 * 3600);
        }
        other => panic!("unexpected plan {:?}", other),
    }
}

#[test]
fn friday_evening_is_routed_through_the_weekend() {
    let now = seoul(2023, 4, 14, 19, 5, 0);
    let saturday = seoul(2023, 4, 15, 9, 30, 0);
    let monday = seoul(2023, 4, 17, 9, 0, 0);
    let woken = match plan(now.timestamp(), 0) {
        Some(Plan::Rest { window: Window::Night, seconds }) => now.timestamp() + seconds as i64,
        other => panic!("unexpected plan {:?}", other),
    };
    assert_eq!(woken, saturday.timestamp());
    let woken = match plan(woken, 0) {
        Some(Plan::Rest { window: Window::Weekend, seconds }) => woken + seconds as i64,
        other => panic!("unexpected plan {:?}", other),
    };
    assert_eq!(woken, monday.timestamp());
    assert_eq!(plan(woken, 0), Some(Plan::Sync));
}

#[test]
fn sunday_rests_one_day() {
    let now = seoul(2023, 4, 16, 23, 59, 59);
    assert_eq!(
        plan(now.timestamp(), 0),
        Some(Plan::Rest { window: Window::Weekend, seconds: 9 * 3600 + 1 })
    );
}

#[test]
fn window_boundaries() {
    let monday = |hour, minute, second| at(seoul(2023, 4, 17, hour, minute, second));
    assert_eq!(window(&monday(8, 59, 59)), Window::Night);
    assert_eq!(window(&monday(9, 0, 0)), Window::Open);
    assert_eq!(window(&monday(18, 59, 59)), Window::Open);
    assert_eq!(window(&monday(19, 0, 0)), Window::Night);
    assert_eq!(window(&monday(0, 0, 0)), Window::Night);
    assert_eq!(window(&at(seoul(2023, 4, 14, 12, 0, 0))), Window::Open);
    assert_eq!(window(&at(seoul(2023, 4, 15, 12, 0, 0))), Window::Weekend);
    assert_eq!(window(&at(seoul(2023, 4, 15, 3, 0, 0))), Window::Weekend);
    assert_eq!(window(&at(seoul(2023, 4, 16, 20, 0, 0))), Window::Weekend);
}

#[test]
fn night_rests_until_half_past_nine() {
    let early = seoul(2023, 4, 18, 8, 59, 59);
    assert_eq!(
        plan(early.timestamp(), 0),
        Some(Plan::Rest { window: Window::Night, seconds: 30 * 60 + 1 })
    );
    let late = seoul(2023, 4, 18, 19, 0, 0);
    assert_eq!(
        plan(late.timestamp(), 0),
        Some(Plan::Rest { window: Window::Night, seconds: 14 * 3600 + 30 * 60 })
    );
    let midnight = seoul(2023, 4, 18, 0, 0, 0);
    assert_eq!(wait_until_next_morning(&at(midnight)), Some(9 * 3600 + 30 * 60));
}

#[test]
fn open_window_runs_a_cycle() {
    for hour in 9..19 {
        let now = seoul(2023, 4, 19, hour, 30, 0);
        assert_eq!(plan(now.timestamp(), 123), Some(Plan::Sync));
        assert_eq!(plan_at(&at(now)), Some(Plan::Sync));
    }
}

#[test]
fn a_part_of_a_second_is_left_out() {
    let now = seoul(2023, 4, 15, 10, 0, 0);
    assert_eq!(
        plan(now.timestamp(), 1),
        Some(Plan::Rest { window: Window::Weekend, seconds: 47 * 3600 - 1 })
    );
    assert_eq!(
        plan(now.timestamp(), 999_999_999),
        Some(Plan::Rest { window: Window::Weekend, seconds: 47 * 3600 - 1 })
    );
}

#[test]
fn rests_agree_with_the_calendar() {
    let start = seoul(2023, 4, 10, 0, 0, 0);
    for step in 0..(14 * 24 * 4) {
        for nanos in [0u32, 1, 500_000_000, 999_999_999] {
            let now = start + Duration::minutes(15 * step) + Duration::nanoseconds(nanos as i64);
            let got = plan(now.timestamp(), now.timestamp_subsec_nanos());
            match expected_rest(now) {
                None => assert_eq!(got, Some(Plan::Sync), "at {}", now),
                Some(seconds) => match got {
                    Some(Plan::Rest { seconds: s, .. }) => {
                        assert_eq!(s as i64, seconds, "at {}", now)
                    }
                    other => panic!("at {}: {:?}", now, other),
                },
            }
        }
    }
}

#[test]
fn waits_from_a_given_base() {
    let now = LocalTime {
        year: 2023,
        month: 4,
        day: 15,
        days_from_monday: 5,
        hour: 10,
        timestamp: 1_000_000,
        nanosecond: 0,
    };
    assert_eq!(weekday_wait_from(&now, 1_000_000), Some(2 * 86_400));
    assert_eq!(weekday_wait_from(&now, 999_000), Some(2 * 86_400 - 1_000));
    assert_eq!(morning_wait_from(&now, 1_000_500), Some(500));
    assert_eq!(morning_wait_from(&now, 1_000_000), Some(0));
    // A base behind now is no rest.
    assert_eq!(morning_wait_from(&now, 999_999), None);
    assert_eq!(weekday_wait_from(&now, i64::MIN), None);
    let evening = LocalTime { hour: 19, ..now };
    assert_eq!(morning_wait_from(&evening, 1_000_000), Some(86_400));
    let wednesday = LocalTime { days_from_monday: 2, ..now };
    assert_eq!(weekday_wait_from(&wednesday, 1_000_000), Some(5 * 86_400));
    // Less than a second behind counts as no wait at all.
    let just_past = LocalTime { nanosecond: 5, ..now };
    assert_eq!(morning_wait_from(&just_past, 1_000_000), Some(0));
    assert_eq!(morning_wait_from(&just_past, 1_000_001), Some(0));
    assert_eq!(morning_wait_from(&just_past, 1_000_002), Some(1));
    // The widest span still counts.
    let first = LocalTime { timestamp: i64::MIN, hour: 0, ..now };
    assert_eq!(morning_wait_from(&first, i64::MAX), Some(u64::MAX));
}

#[test]
fn a_day_without_the_hour_gives_no_wait() {
    let no_day = LocalTime {
        year: 2023,
        month: 2,
        day: 30,
        days_from_monday: 5,
        hour: 10,
        timestamp: 0,
        nanosecond: 0,
    };
    assert_eq!(wait_until_weekday(&no_day), None);
    assert_eq!(wait_until_next_morning(&no_day), None);
    assert_eq!(plan_at(&no_day), None);
    let weekday = LocalTime { days_from_monday: 0, hour: 12, ..no_day };
    assert_eq!(plan_at(&weekday), Some(Plan::Sync));
}

#[test]
fn cooldown_after_a_cycle() {
    assert_eq!(cooldown(true), 1800);
    assert_eq!(cooldown(false), 300);
}

#[test]
fn utc_and_seoul_agree_on_the_instant() {
    let now = Utc.with_ymd_and_hms(2023, 4, 14, 10, 5, 0).unwrap();
    let local = local_time(now.timestamp(), 0).unwrap();
    assert_eq!((local.day, local.hour, local.days_from_monday), (14, 19, 4));
}
