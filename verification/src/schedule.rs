//! How long a backup schedule waits before its next backup.
use vstd::prelude::*;

use chrono::{Datelike, Timelike};

use crate::config::{BackupFrequency, BackupSchedule};

verus! {

/// The current time of day in UTC, as seconds since midnight, and the day of
/// the week, counted from Monday = 0.
#[derive(Clone, Copy, PartialEq, Eq, Structural, Debug)]
pub struct ClockReading {
    pub second_of_day: u32,
    pub weekday: u32,
}

pub open spec fn clock_ok(c: ClockReading) -> bool {
    c.second_of_day < 86400 && c.weekday < 7
}

/// `chrono::Utc::now`, read as its second of the day
/// (`Timelike::num_seconds_from_midnight`) and its weekday
/// (`Weekday::num_days_from_monday`). The time is the machine's: the contract
/// states only the ranges of the two numbers.
#[verifier::external_body]
fn utc_clock() -> (c: ClockReading)
    ensures
        clock_ok(c),
{
    let now = chrono::Utc::now();
    ClockReading {
        second_of_day: now.num_seconds_from_midnight(),
        weekday: now.weekday().num_days_from_monday(),
    }
}

/// A daily schedule's value names a time of day: `HHMM` with `HH < 24` and
/// `MM < 60`.
pub open spec fn daily_value_ok(value: u16) -> bool {
    value / 100 < 24 && value % 100 < 60
}

/// A schedule the waiting time of which can be computed: every one but a
/// daily schedule whose value is no time of day.
pub open spec fn schedule_ok(s: BackupSchedule) -> bool {
    s.frequency == BackupFrequency::Daily ==> daily_value_ok(s.value)
}

/// The second of the day at which a daily schedule fires.
pub open spec fn daily_target(value: u16) -> int {
    (value / 100) as int * 3600 + (value % 100) as int * 60
}

/// The number of seconds to wait, at `clock`, before a schedule's next
/// backup: `value` minutes or hours; for a daily schedule, until its time of
/// day today if that has not passed (now included), else tomorrow; for a
/// weekly one, whole days until its weekday, a full week where that is today.
pub open spec fn wait_secs(s: BackupSchedule, clock: ClockReading) -> int {
    match s.frequency {
        BackupFrequency::Minute => 60 * s.value,
        BackupFrequency::Hourly => 3600 * s.value,
        BackupFrequency::Daily => {
            let target = daily_target(s.value);
            if clock.second_of_day <= target {
                target - clock.second_of_day
            } else {
                target + 86400 - clock.second_of_day
            }
        },
        BackupFrequency::Weekly => {
            let d = (s.value + 7 - clock.weekday) % 7;
            (if d == 0 {
                7
            } else {
                d
            }) * 86400
        },
    }
}

/// Whether a schedule's waiting time can be computed.
pub fn is_schedule_ok(s: &BackupSchedule) -> (b: bool)
    ensures
        b == schedule_ok(*s),
{
    match s.frequency {
        BackupFrequency::Daily => s.value / 100 < 24 && s.value % 100 < 60,
        _ => true,
    }
}

/// The number of seconds to wait at `clock` before the schedule's next
/// backup, as `wait_secs` says.
pub fn wait_seconds(s: &BackupSchedule, clock: ClockReading) -> (r: u64)
    requires
        clock_ok(clock),
        schedule_ok(*s),
    ensures
        r == wait_secs(*s, clock),
{
    match s.frequency {
        BackupFrequency::Minute => 60 * s.value as u64,
        BackupFrequency::Hourly => 3600 * s.value as u64,
        BackupFrequency::Daily => {
            let target: u64 = (s.value / 100) as u64 * 3600 + (s.value % 100) as u64 * 60;
            let now = clock.second_of_day as u64;
            if now <= target {
                target - now
            } else {
                target + 86400 - now
            }
        },
        BackupFrequency::Weekly => {
            let d: u64 = (s.value as u64 + 7 - clock.weekday as u64) % 7;
            if d == 0 {
                7 * 86400
            } else {
                d * 86400
            }
        },
    }
}

/// The number of seconds to wait from now before the schedule's next backup.
/// The clock is read only for daily and weekly schedules; the wait of one by
/// minutes or hours does not depend on it. For a daily or weekly schedule
/// the wait is `wait_seconds` at the reading that `utc_clock` gave; the
/// contract cannot name that reading, which is the machine's time, and says
/// only that the wait is the one of some valid reading.
pub fn wait_seconds_now(s: &BackupSchedule) -> (r: u64)
    requires
        schedule_ok(*s),
    ensures
        exists|c: ClockReading| clock_ok(c) && r == wait_secs(*s, c),
        s.frequency == BackupFrequency::Minute ==> r == 60 * s.value,
        s.frequency == BackupFrequency::Hourly ==> r == 3600 * s.value,
{
    match s.frequency {
        BackupFrequency::Minute | BackupFrequency::Hourly => {
            let c = ClockReading { second_of_day: 0, weekday: 0 };
            wait_seconds(s, c)
        },
        BackupFrequency::Daily | BackupFrequency::Weekly => {
            let c = utc_clock();
            wait_seconds(s, c)
        },
    }
}

/// A daily schedule waits less than a day, and the wait ends at its time of
/// day; a weekly one waits one to seven whole days and ends on its weekday; a
/// schedule by minutes or hours waits exactly that long.
pub proof fn law_wait_lands_on_schedule(s: BackupSchedule, c: ClockReading)
    requires
        clock_ok(c),
        schedule_ok(s),
    ensures
        s.frequency == BackupFrequency::Daily ==> 0 <= wait_secs(s, c) < 86400 && (c.second_of_day
            + wait_secs(s, c)) % 86400 == daily_target(s.value),
        s.frequency == BackupFrequency::Weekly ==> 86400 <= wait_secs(s, c) <= 7 * 86400
            && wait_secs(s, c) % 86400 == 0 && (c.weekday + wait_secs(s, c) / 86400) % 7 == s.value
            % 7,
        s.frequency == BackupFrequency::Minute ==> wait_secs(s, c) == 60 * s.value,
        s.frequency == BackupFrequency::Hourly ==> wait_secs(s, c) == 3600 * s.value,
{
    if s.frequency == BackupFrequency::Daily {
        assert(daily_target(s.value) < 86400);
    }
    if s.frequency == BackupFrequency::Weekly {
        let d = (s.value + 7 - c.weekday) % 7;
        let days = if d == 0 { 7 } else { d };
        assert(wait_secs(s, c) == days * 86400);
        assert((days * 86400) / 86400 == days) by (nonlinear_arith);
        assert((days * 86400) % 86400 == 0) by (nonlinear_arith);
        assert((c.weekday + days) % 7 == s.value % 7) by (nonlinear_arith)
            requires
                d == (s.value + 7 - c.weekday) % 7,
                days == if d == 0 { 7 } else { d },
                c.weekday < 7,
        ;
    }
}

} // verus!
