use vstd::prelude::*;

use chrono::{Datelike, Timelike};

verus! {

/// A wall-clock reading, split into plain calendar fields, exactly as the
/// operating system's clock reported it.
pub(crate) struct RawLocalTime {
    pub year: i32,
    pub month: u32,
    pub day: u32,
    pub hour: u32,
    pub minute: u32,
    pub second: u32,
    pub offset_seconds: i32,
}

/// A local wall-clock time within the range this library formats and buckets.
#[derive(Clone, Copy, Debug, PartialEq, Eq, Structural)]
pub struct LocalTime {
    pub year: u32,
    pub month: u32,
    pub day: u32,
    pub hour: u32,
    pub minute: u32,
    pub second: u32,
    pub offset_seconds: i32,
}

impl LocalTime {
    /// Field ranges every `LocalTime` of this library satisfies.
    pub open spec fn valid(self) -> bool {
        &&& 1970 <= self.year <= 9999
        &&& 1 <= self.month <= 12
        &&& 1 <= self.day <= 31
        &&& self.hour < 24
        &&& self.minute < 60
        &&& self.second < 60
        &&& -86400 < self.offset_seconds < 86400
    }

    /// Clamps a raw clock reading into the supported year range.
    pub(crate) fn from_raw(raw: RawLocalTime) -> (t: LocalTime)
        requires
            1 <= raw.month <= 12,
            1 <= raw.day <= 31,
            raw.hour < 24,
            raw.minute < 60,
            raw.second < 60,
            -86400 < raw.offset_seconds < 86400,
        ensures
            t.valid(),
            t.month == raw.month && t.day == raw.day && t.hour == raw.hour,
            t.minute == raw.minute && t.second == raw.second,
            t.offset_seconds == raw.offset_seconds,
            1970 <= raw.year <= 9999 ==> t.year == raw.year,
    {
        let year: u32 = if raw.year < 1970 {
            1970
        } else if raw.year > 9999 {
            9999
        } else {
            raw.year as u32
        };
        LocalTime {
            year,
            month: raw.month,
            day: raw.day,
            hour: raw.hour,
            minute: raw.minute,
            second: raw.second,
            offset_seconds: raw.offset_seconds,
        }
    }
}

/// Relies on chrono's `Local::now` and the `Datelike`/`Timelike` accessors:
/// `month` is 1 to 12, `day` is 1 to 31, `hour` is below 24, `minute` and
/// `second` are below 60, and `FixedOffset::local_minus_utc` is strictly
/// between -86400 and 86400 seconds.
#[verifier::external_body]
fn now_raw() -> (r: RawLocalTime)
    ensures
        1 <= r.month <= 12,
        1 <= r.day <= 31,
        r.hour < 24,
        r.minute < 60,
        r.second < 60,
        -86400 < r.offset_seconds < 86400,
{
    let n = chrono::Local::now();
    RawLocalTime {
        year: n.year(),
        month: n.month(),
        day: n.day(),
        hour: n.hour(),
        minute: n.minute(),
        second: n.second(),
        offset_seconds: n.offset().local_minus_utc(),
    }
}

/// Reads the wall clock, clamped into the supported range.
pub(crate) fn now_local() -> (t: LocalTime)
    ensures
        t.valid(),
{
    LocalTime::from_raw(now_raw())
}

/// Whether `year` is a leap year of the Gregorian calendar.
pub open spec fn is_leap_year(year: nat) -> bool {
    year % 4 == 0 && (year % 100 != 0 || year % 400 == 0)
}

/// The number of days of `year` (365 or 366).
pub open spec fn days_of_year(year: nat) -> nat {
    if is_leap_year(year) {
        366
    } else {
        365
    }
}

/// Days from 1970-01-01 to the first day of `year`.
pub open spec fn days_before_year(year: nat) -> nat
    decreases year,
{
    if year <= 1970 {
        0
    } else {
        days_before_year((year - 1) as nat) + days_of_year((year - 1) as nat)
    }
}

/// Days of `year` that lie before the first day of month `month`.
pub open spec fn days_before_month(year: nat, month: nat) -> nat {
    let feb: nat = if is_leap_year(year) {
        29
    } else {
        28
    };
    if month <= 1 {
        0
    } else if month == 2 {
        31
    } else if month == 3 {
        31 + feb
    } else if month == 4 {
        62 + feb
    } else if month == 5 {
        92 + feb
    } else if month == 6 {
        123 + feb
    } else if month == 7 {
        153 + feb
    } else if month == 8 {
        184 + feb
    } else if month == 9 {
        215 + feb
    } else if month == 10 {
        245 + feb
    } else if month == 11 {
        276 + feb
    } else {
        306 + feb
    }
}

/// The number of days of month `month` of year `year`.
pub open spec fn days_in_month(year: nat, month: nat) -> nat {
    if month == 2 {
        if is_leap_year(year) {
            29
        } else {
            28
        }
    } else if month == 4 || month == 6 || month == 9 || month == 11 {
        30
    } else {
        31
    }
}

/// A time whose date exists on the calendar, not merely one within the raw
/// field ranges.
pub open spec fn calendar_valid(t: LocalTime) -> bool {
    t.valid() && t.day <= days_in_month(t.year as nat, t.month as nat)
}

/// Days since 1970-01-01 of the calendar date `year-month-day`.
pub open spec fn day_index_ymd(year: nat, month: nat, day: nat) -> nat
    recommends
        1970 <= year <= 9999,
        1 <= month <= 12,
        1 <= day <= 31,
{
    days_before_year(year) + days_before_month(year, month) + (day - 1) as nat
}

/// The day bucket of a time: days since 1970-01-01 of its calendar date.
pub open spec fn day_index_of(t: LocalTime) -> nat
    recommends
        t.valid(),
{
    day_index_ymd(t.year as nat, t.month as nat, t.day as nat)
}

/// The hour bucket of a time: hours since 1970-01-01 00:00.
pub open spec fn hour_index_of(t: LocalTime) -> nat
    recommends
        t.valid(),
{
    day_index_of(t) * 24 + t.hour as nat
}

/// The month table is coherent: each month's days carry it to the next
/// month's offset, and the year's months fill the year exactly.
proof fn lemma_month_table(year: nat, month: nat)
    requires
        1 <= month <= 12,
    ensures
        days_before_month(year, month) + days_in_month(year, month) == if month == 12 {
            days_of_year(year)
        } else {
            days_before_month(year, month + 1)
        },
{
}

/// Month offsets never decrease.
proof fn lemma_days_before_month_monotone(year: nat, a: nat, b: nat)
    requires
        a <= b,
    ensures
        days_before_month(year, a) <= days_before_month(year, b),
{
}

/// Year offsets never decrease.
proof fn lemma_days_before_year_monotone(a: nat, b: nat)
    requires
        a <= b,
    ensures
        days_before_year(a) <= days_before_year(b),
    decreases b,
{
    if a < b {
        lemma_days_before_year_monotone(a, (b - 1) as nat);
    }
}

/// A calendar date's offset within its year stays below the year's length.
proof fn lemma_day_of_year_bound(t: LocalTime)
    requires
        calendar_valid(t),
    ensures
        days_before_month(t.year as nat, t.month as nat) + ((t.day - 1) as nat)
            < days_of_year(t.year as nat),
{
    lemma_month_table(t.year as nat, t.month as nat);
    if t.month < 12 {
        lemma_days_before_month_monotone(t.year as nat, t.month as nat + 1, 12);
        lemma_month_table(t.year as nat, 12);
    }
}

/// The day index respects calendar order: of two dates that exist on the
/// calendar, the earlier one has the strictly smaller index. Ages measured
/// as index differences therefore mean calendar ages.
pub proof fn lemma_day_index_strictly_monotone(t1: LocalTime, t2: LocalTime)
    requires
        calendar_valid(t1),
        calendar_valid(t2),
        (t1.year, t1.month, t1.day) != (t2.year, t2.month, t2.day),
        t1.year < t2.year || (t1.year == t2.year && t1.month < t2.month) || (t1.year == t2.year
            && t1.month == t2.month && t1.day < t2.day),
    ensures
        day_index_of(t1) < day_index_of(t2),
{
    let y1 = t1.year as nat;
    let y2 = t2.year as nat;
    if y1 < y2 {
        lemma_day_of_year_bound(t1);
        lemma_days_before_year_monotone(y1 + 1, y2);
        assert(days_before_year(y1 + 1) == days_before_year(y1) + days_of_year(y1));
    } else if t1.month < t2.month {
        lemma_month_table(y1, t1.month as nat);
        lemma_days_before_month_monotone(y1, t1.month as nat + 1, t2.month as nat);
    }
}

/// Days before the first day of `year`, and a bound that keeps the sum small.
proof fn lemma_days_before_year_bound(year: nat)
    requires
        year <= 10000,
    ensures
        days_before_year(year) <= 366 * year,
    decreases year,
{
    if year > 1970 {
        lemma_days_before_year_bound((year - 1) as nat);
    }
}

fn is_leap_year_exec(year: u32) -> (r: bool)
    ensures
        r == is_leap_year(year as nat),
{
    year % 4 == 0 && (year % 100 != 0 || year % 400 == 0)
}

/// Computes [`day_index_ymd`].
pub fn day_index_of_ymd(year: u32, month: u32, day: u32) -> (r: u64)
    requires
        1970 <= year <= 9999,
        1 <= month <= 12,
        1 <= day <= 31,
    ensures
        r as nat == day_index_ymd(year as nat, month as nat, day as nat),
        r < 3000000,
{
    let mut acc: u64 = 0;
    let mut y: u32 = 1970;
    while y < year
        invariant
            1970 <= y <= year,
            year <= 9999,
            acc == days_before_year(y as nat),
            acc <= 366 * (y - 1970),
        decreases year - y,
    {
        if is_leap_year_exec(y) {
            acc = acc + 366;
        } else {
            acc = acc + 365;
        }
        y = y + 1;
    }
    let feb: u64 = if is_leap_year_exec(year) {
        29
    } else {
        28
    };
    let before_month: u64 = match month {
        1 => 0,
        2 => 31,
        3 => 31 + feb,
        4 => 62 + feb,
        5 => 92 + feb,
        6 => 123 + feb,
        7 => 153 + feb,
        8 => 184 + feb,
        9 => 215 + feb,
        10 => 245 + feb,
        11 => 276 + feb,
        _ => 306 + feb,
    };
    proof {
        lemma_days_before_year_bound(year as nat);
    }
    acc + before_month + (day - 1) as u64
}

/// Computes [`day_index_of`].
pub fn day_index(t: &LocalTime) -> (r: u64)
    requires
        t.valid(),
    ensures
        r as nat == day_index_of(*t),
        r < 3000000,
{
    day_index_of_ymd(t.year, t.month, t.day)
}

/// Computes [`hour_index_of`].
pub fn hour_index(t: &LocalTime) -> (r: u64)
    requires
        t.valid(),
    ensures
        r as nat == hour_index_of(*t),
        r < 72000000,
{
    let d = day_index(t);
    d * 24 + (t.hour as u64)
}

} // verus!
