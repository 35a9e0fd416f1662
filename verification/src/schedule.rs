//! When to poll: the operating window of the campus and the rests outside
//! of it.
//!
//! The notice board is read on weekdays between nine in the morning and
//! seven in the evening, campus time. Outside of that the synchroniser
//! rests: over a weekend until Monday 09:00, over a night until 09:30. The
//! clock and the sleep are the caller's; the calendar of the campus's time
//! zone is `chrono-tz`'s.

use chrono::{Datelike, TimeZone, Timelike};
use chrono_tz::Asia::Seoul;
use vstd::prelude::*;

verus! {

/// Seconds in a day.
pub const DAY_SECS: i64 = 86_400;

/// Nanoseconds in a second.
pub const NANOS_PER_SEC: u32 = 1_000_000_000;

/// The first hour of the evening that is rest: the window closes as it
/// begins.
pub const CLOSING_HOUR: u32 = 19;

/// The last hour of the morning that is rest: the window opens as it ends.
pub const LAST_NIGHT_HOUR: u32 = 8;

/// Seconds of rest after a cycle that succeeded.
pub const SUCCESS_REST_SECS: u64 = 1800;

/// Seconds of rest after a cycle that failed.
pub const FAILURE_REST_SECS: u64 = 300;

/// An instant as the campus's clocks show it.
#[derive(Debug, Clone, Copy, PartialEq, Eq, Structural)]
pub struct LocalTime {
    /// Year of the local date.
    pub year: i32,
    /// Month of the local date, from 1.
    pub month: u32,
    /// Day of the month, from 1.
    pub day: u32,
    /// Day of the week as the number of days since Monday: 0 for Monday, 6
    /// for Sunday.
    pub days_from_monday: u32,
    /// Hour of the local time of day, from 0.
    pub hour: u32,
    /// The instant in whole seconds since 1970-01-01 00:00:00 UTC.
    pub timestamp: i64,
    /// The nanoseconds of the instant past its whole second.
    pub nanosecond: u32,
}

/// The part of the week an instant falls in.
#[derive(Debug, Clone, Copy, PartialEq, Eq, Structural)]
pub enum Window {
    /// Saturday or Sunday.
    Weekend,
    /// A weekday before 09:00 or from 19:00.
    Night,
    /// A weekday from 09:00 to 18:59.
    Open,
}

/// What to do at an instant.
#[derive(Debug, Clone, Copy, PartialEq, Eq, Structural)]
pub enum Plan {
    /// Sleep for `seconds`, then look at the clock again.
    Rest { window: Window, seconds: u64 },
    /// Run one cycle, then rest as [`cooldown`] says.
    Sync,
}

// ---------------------------------------------------------------------------
// The calendar
// ---------------------------------------------------------------------------

/// The instant `secs` seconds and `nanos` nanoseconds after 1970-01-01
/// 00:00:00 UTC as the clocks of `Asia/Seoul` show it; none where `chrono`
/// holds no such instant.
pub uninterp spec fn seoul_time(secs: i64, nanos: u32) -> Option<LocalTime>;

/// The instant at which the clocks of `Asia/Seoul` show the given date and
/// time of day, in whole seconds since 1970-01-01 00:00:00 UTC; none where
/// they never show it, or show it twice.
pub uninterp spec fn seoul_timestamp(
    year: i32,
    month: u32,
    day: u32,
    hour: u32,
    minute: u32,
    second: u32,
) -> Option<i64>;

/// `TimeZone::timestamp_opt` of `chrono` in `chrono_tz::Asia::Seoul`, read
/// through the accessors of `Datelike` and `Timelike`. The contract names the
/// result [`seoul_time`] and claims that the instant read back is the instant
/// given, as `chrono` documents of `DateTime::from_timestamp`.
#[verifier::external_body]
fn seoul_time_at(secs: i64, nanos: u32) -> (time: Option<LocalTime>)
    ensures
        time == seoul_time(secs, nanos),
        time matches Some(t) ==> t.timestamp == secs && t.nanosecond == nanos,
{
    let t = Seoul.timestamp_opt(secs, nanos).single()?;
    Some(
        LocalTime {
            year: t.year(),
            month: t.month(),
            day: t.day(),
            days_from_monday: t.weekday().num_days_from_monday(),
            hour: t.hour(),
            timestamp: t.timestamp(),
            nanosecond: t.timestamp_subsec_nanos(),
        },
    )
}

/// `TimeZone::with_ymd_and_hms` of `chrono` in `chrono_tz::Asia::Seoul`, then
/// `DateTime::timestamp`. The contract claims only that the result is a
/// function of the six numbers, [`seoul_timestamp`].
#[verifier::external_body]
fn seoul_timestamp_at(year: i32, month: u32, day: u32, hour: u32, minute: u32, second: u32) -> (timestamp:
    Option<i64>)
    ensures
        timestamp == seoul_timestamp(year, month, day, hour, minute, second),
{
    Seoul.with_ymd_and_hms(year, month, day, hour, minute, second).single().map(|t| t.timestamp())
}

/// The instant `secs`, `nanos` on the campus's clocks. An instant with a
/// nanosecond part of a whole second or more, as some calendars write a leap
/// second, is none.
pub open spec fn local_time_of(secs: i64, nanos: u32) -> Option<LocalTime> {
    if nanos >= NANOS_PER_SEC {
        None
    } else {
        seoul_time(secs, nanos)
    }
}

/// The instant `secs` seconds and `nanos` nanoseconds after 1970-01-01
/// 00:00:00 UTC on the campus's clocks.
pub fn local_time(secs: i64, nanos: u32) -> (time: Option<LocalTime>)
    ensures
        time == local_time_of(secs, nanos),
        time matches Some(t) ==> t.timestamp == secs && t.nanosecond == nanos,
{
    if nanos >= NANOS_PER_SEC {
        None
    } else {
        seoul_time_at(secs, nanos)
    }
}

// ---------------------------------------------------------------------------
// The window
// ---------------------------------------------------------------------------

/// The part of the week `now` falls in. The weekend goes before the hour:
/// a Saturday morning is weekend, not night.
pub open spec fn window_of(now: LocalTime) -> Window {
    if now.days_from_monday == 5 || now.days_from_monday == 6 {
        Window::Weekend
    } else if now.hour >= CLOSING_HOUR || now.hour <= LAST_NIGHT_HOUR {
        Window::Night
    } else {
        Window::Open
    }
}

/// The part of the week `now` falls in.
pub fn window(now: &LocalTime) -> (w: Window)
    ensures
        w == window_of(*now),
{
    if now.days_from_monday == 5 || now.days_from_monday == 6 {
        Window::Weekend
    } else if now.hour >= CLOSING_HOUR || now.hour <= LAST_NIGHT_HOUR {
        Window::Night
    } else {
        Window::Open
    }
}

// ---------------------------------------------------------------------------
// The rests
// ---------------------------------------------------------------------------

/// The nanoseconds from `now` to the instant `target`, which is given in
/// seconds since 1970-01-01 00:00:00 UTC.
pub open spec fn nanos_until(now: LocalTime, target: int) -> int {
    (target - now.timestamp) * NANOS_PER_SEC - now.nanosecond
}

/// The whole seconds from `now` to the instant `target`, a part of a second
/// left out: the rest ends up to a second early. None where `target` is a
/// second or more behind `now`, or too far ahead to count.
pub open spec fn seconds_until(now: LocalTime, target: int) -> Option<u64> {
    let nanos = nanos_until(now, target);
    if nanos <= -(NANOS_PER_SEC as int) || nanos / (NANOS_PER_SEC as int) > u64::MAX {
        None
    } else if nanos < 0 {
        Some(0)
    } else {
        Some((nanos / (NANOS_PER_SEC as int)) as u64)
    }
}

/// The instant of the Monday after `now`'s day at the time of day of `base`,
/// where `base` is an instant of `now`'s day: as many days after `base` as
/// `now`'s day is before next Monday.
pub open spec fn next_monday(now: LocalTime, base: i64) -> int {
    base + DAY_SECS * (7 - now.days_from_monday)
}

/// The instant of the next morning at the time of day of `base`, where
/// `base` is an instant of `now`'s day: `base` itself before the evening's
/// close, a day after it from then on.
pub open spec fn next_morning(now: LocalTime, base: i64) -> int {
    if now.hour >= CLOSING_HOUR {
        base + DAY_SECS
    } else {
        base as int
    }
}

fn wait_until(now: &LocalTime, target: i128) -> (seconds: Option<u64>)
    requires
        -0x1_0000_0000_0000_0000_0000 <= target <= 0x1_0000_0000_0000_0000_0000,
    ensures
        seconds == seconds_until(*now, target as int),
{
    let nanos: i128 = (target - now.timestamp as i128) * 1_000_000_000 - now.nanosecond as i128;
    if nanos <= -1_000_000_000 {
        return None;
    }
    if nanos < 0 {
        return Some(0);
    }
    let whole: i128 = nanos / 1_000_000_000;
    if whole > u64::MAX as i128 {
        None
    } else {
        Some(whole as u64)
    }
}

/// The seconds to rest from `now` until the Monday after, 09:00, given
/// `base`, the instant of 09:00 on `now`'s day.
pub fn weekday_wait_from(now: &LocalTime, base: i64) -> (seconds: Option<u64>)
    ensures
        seconds == seconds_until(*now, next_monday(*now, base)),
{
    let days: i128 = 7 - now.days_from_monday as i128;
    wait_until(now, base as i128 + 86_400 * days)
}

/// The seconds to rest from `now` until the next 09:30, given `base`, the
/// instant of 09:30 on `now`'s day.
pub fn morning_wait_from(now: &LocalTime, base: i64) -> (seconds: Option<u64>)
    ensures
        seconds == seconds_until(*now, next_morning(*now, base)),
{
    if now.hour >= CLOSING_HOUR {
        wait_until(now, base as i128 + 86_400)
    } else {
        wait_until(now, base as i128)
    }
}

/// The seconds of the weekend's rest at `now`: until the Monday after `now`'s
/// day, 09:00 local; none where that day has no 09:00, or it is not ahead.
pub open spec fn weekday_wait(now: LocalTime) -> Option<u64> {
    match seoul_timestamp(now.year, now.month, now.day, 9, 0, 0) {
        Some(base) => seconds_until(now, next_monday(now, base)),
        None => None,
    }
}

/// The seconds of the night's rest at `now`: until the next 09:30 local,
/// today's before 19:00 and tomorrow's from then on; none where `now`'s day
/// has no 09:30, or it is not ahead.
pub open spec fn morning_wait(now: LocalTime) -> Option<u64> {
    match seoul_timestamp(now.year, now.month, now.day, 9, 30, 0) {
        Some(base) => seconds_until(now, next_morning(now, base)),
        None => None,
    }
}

/// The seconds to rest from `now` until the Monday after, 09:00 local.
pub fn wait_until_weekday(now: &LocalTime) -> (seconds: Option<u64>)
    ensures
        seconds == weekday_wait(*now),
{
    match seoul_timestamp_at(now.year, now.month, now.day, 9, 0, 0) {
        Some(base) => weekday_wait_from(now, base),
        None => None,
    }
}

/// The seconds to rest from `now` until the next 09:30 local.
pub fn wait_until_next_morning(now: &LocalTime) -> (seconds: Option<u64>)
    ensures
        seconds == morning_wait(*now),
{
    match seoul_timestamp_at(now.year, now.month, now.day, 9, 30, 0) {
        Some(base) => morning_wait_from(now, base),
        None => None,
    }
}

// ---------------------------------------------------------------------------
// The plan
// ---------------------------------------------------------------------------

/// What to do in `window`, given the rest that the window asks for: a cycle
/// in the open window, the rest otherwise, none where a rest is due and none
/// was found.
pub open spec fn planned_with(window: Window, rest: Option<u64>) -> Option<Plan> {
    match (window, rest) {
        (Window::Open, _) => Some(Plan::Sync),
        (_, Some(seconds)) => Some(Plan::Rest { window, seconds }),
        (_, None) => None,
    }
}

/// What to do at `now`: over a weekend rest until Monday 09:00, on a
/// weekday's night until the next 09:30, in the open window run a cycle.
pub open spec fn planned(now: LocalTime) -> Option<Plan> {
    match window_of(now) {
        Window::Weekend => planned_with(Window::Weekend, weekday_wait(now)),
        Window::Night => planned_with(Window::Night, morning_wait(now)),
        Window::Open => Some(Plan::Sync),
    }
}

/// What to do at `now`.
pub fn plan_at(now: &LocalTime) -> (plan: Option<Plan>)
    ensures
        plan == planned(*now),
        plan == Some(Plan::Sync) <==> window_of(*now) == Window::Open,
{
    match window(now) {
        Window::Weekend => match wait_until_weekday(now) {
            Some(seconds) => Some(Plan::Rest { window: Window::Weekend, seconds }),
            None => None,
        },
        Window::Night => match wait_until_next_morning(now) {
            Some(seconds) => Some(Plan::Rest { window: Window::Night, seconds }),
            None => None,
        },
        Window::Open => Some(Plan::Sync),
    }
}

/// What to do at the instant `secs` seconds and `nanos` nanoseconds after
/// 1970-01-01 00:00:00 UTC; none where the instant has no local time, or a
/// rest is due and none was found.
pub fn plan(secs: i64, nanos: u32) -> (plan: Option<Plan>)
    ensures
        plan == (match local_time_of(secs, nanos) {
            Some(now) => planned(now),
            None => None,
        }),
{
    match local_time(secs, nanos) {
        Some(now) => plan_at(&now),
        None => None,
    }
}

/// The seconds to rest after a cycle: half an hour after one that
/// succeeded, five minutes after one that failed. A failure never ends the
/// loop.
pub fn cooldown(succeeded: bool) -> (seconds: u64)
    ensures
        seconds == if succeeded {
            SUCCESS_REST_SECS
        } else {
            FAILURE_REST_SECS
        },
{
    if succeeded {
        SUCCESS_REST_SECS
    } else {
        FAILURE_REST_SECS
    }
}

} // verus!
