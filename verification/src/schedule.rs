//! Opening hours of the gym and the Bavarian public holidays on which the
//! weekend hours apply.

use vstd::prelude::*;

use crate::calendar::{
    day_number, day_of_year, days_before_year, is_leap_year, is_valid_ymd, lemma_div_step, tdiv,
    tmod, CalendarDate, LocalDateTime, MAX_YEAR,
};
use crate::config::ScheduleConfig;

verus! {

/// Raw `(month, day)` of Easter Sunday in `year` by the anonymous Gregorian
/// computus (Meeus/Jones/Butcher), evaluated with Rust's truncating integer
/// division.
pub open spec fn easter_raw(year: int) -> (int, int) {
    let a = tmod(year, 19);
    let b = tdiv(year, 100);
    let c = tmod(year, 100);
    let d = tdiv(b, 4);
    let e = tmod(b, 4);
    let f = tdiv(b + 8, 25);
    let g = tdiv(b - f + 1, 3);
    let h = tmod(19 * a + b - d - g + 15, 30);
    let i = tdiv(c, 4);
    let k = tmod(c, 4);
    let l = tmod(32 + 2 * e + 2 * i - h - k, 7);
    let m = tdiv(a + 11 * h + 22 * l, 451);
    let n = h + l - 7 * m + 114;
    (tdiv(n, 31), tmod(n, 31) + 1)
}

/// The date of Easter Sunday in `year`, when the computed month and day form
/// an existing date.
pub open spec fn easter_spec(year: i32) -> Option<CalendarDate> {
    let (m, d) = easter_raw(year as int);
    let month = m as u32;
    let day = d as u32;
    if is_valid_ymd(year as int, month as int, day as int) {
        Some(CalendarDate { year, month, day })
    } else {
        None
    }
}

/// Fixed-date Bavarian public holidays: New Year, Epiphany, Labour Day,
/// Assumption Day, German Unity Day, All Saints' Day, Christmas Day and
/// St. Stephen's Day.
pub open spec fn is_fixed_holiday(month: int, day: int) -> bool {
    ||| (month == 1 || month == 5 || month == 11) && day == 1
    ||| month == 1 && day == 6
    ||| month == 8 && day == 15
    ||| month == 10 && day == 3
    ||| month == 12 && (day == 25 || day == 26)
}

/// Movable holidays relative to Easter Sunday: Good Friday (-2), Easter
/// Monday (+1), Ascension Day (+39), Whit Monday (+50) and Corpus Christi
/// (+60), all within the same year.
pub open spec fn is_easter_relative_holiday(ordinal: int, easter_ordinal: int) -> bool {
    ||| ordinal == easter_ordinal - 2
    ||| ordinal == easter_ordinal + 1
    ||| ordinal == easter_ordinal + 39
    ||| ordinal == easter_ordinal + 50
    ||| ordinal == easter_ordinal + 60
}

/// `date` is a public holiday in Bavaria.
pub open spec fn is_holiday_spec(date: CalendarDate) -> bool {
    ||| is_fixed_holiday(date.month as int, date.day as int)
    ||| match easter_spec(date.year) {
        Some(easter) => is_easter_relative_holiday(date.ordinal_spec(), easter.ordinal_spec()),
        None => false,
    }
}

/// On `date` the weekend opening hours apply: holidays, Saturdays and Sundays.
pub open spec fn uses_weekend_hours(date: CalendarDate) -> bool {
    is_holiday_spec(date) || date.weekday_spec() > 5
}

/// `hour:minute` lies within the opening window `open..close`, the closing
/// hour itself counting only at minute 0.
pub open spec fn within_hours(open: u32, close: u32, hour: u32, minute: u32) -> bool {
    (open <= hour && hour < close) || (hour == close && minute == 0)
}

/// Opening hours for weekdays and for weekends/holidays.
#[derive(Debug, Clone)]
pub struct GymSchedule {
    weekday_open: u32,
    weekday_close: u32,
    weekend_open: u32,
    weekend_close: u32,
}

impl GymSchedule {
    /// Opening hour on ordinary weekdays.
    pub closed spec fn weekday_open_spec(&self) -> u32 {
        self.weekday_open
    }

    /// Closing hour on ordinary weekdays.
    pub closed spec fn weekday_close_spec(&self) -> u32 {
        self.weekday_close
    }

    /// Opening hour on weekends and holidays.
    pub closed spec fn weekend_open_spec(&self) -> u32 {
        self.weekend_open
    }

    /// Closing hour on weekends and holidays.
    pub closed spec fn weekend_close_spec(&self) -> u32 {
        self.weekend_close
    }

    /// Opening hour that applies on `date`.
    pub open spec fn open_hour_on(&self, date: CalendarDate) -> u32 {
        if uses_weekend_hours(date) {
            self.weekend_open_spec()
        } else {
            self.weekday_open_spec()
        }
    }

    /// Closing hour that applies on `date`.
    pub open spec fn close_hour_on(&self, date: CalendarDate) -> u32 {
        if uses_weekend_hours(date) {
            self.weekend_close_spec()
        } else {
            self.weekday_close_spec()
        }
    }

    /// The gym is open at `time`.
    pub open spec fn is_open_spec(&self, time: LocalDateTime) -> bool {
        within_hours(
            self.open_hour_on(time.date),
            self.close_hour_on(time.date),
            time.hour,
            time.minute,
        )
    }

    /// Schedule taken from the configured weekday and weekend hours.
    pub fn new(config: &ScheduleConfig) -> (r: Self)
        ensures
            r.weekday_open_spec() == config.weekday.open_hour,
            r.weekday_close_spec() == config.weekday.close_hour,
            r.weekend_open_spec() == config.weekend.open_hour,
            r.weekend_close_spec() == config.weekend.close_hour,
    {
        GymSchedule {
            weekday_open: config.weekday.open_hour,
            weekday_close: config.weekday.close_hour,
            weekend_open: config.weekend.open_hour,
            weekend_close: config.weekend.close_hour,
        }
    }

    /// Schedule with explicitly given hours.
    pub fn new_for_test(
        weekday_open: u32,
        weekday_close: u32,
        weekend_open: u32,
        weekend_close: u32,
    ) -> (r: Self)
        ensures
            r.weekday_open_spec() == weekday_open,
            r.weekday_close_spec() == weekday_close,
            r.weekend_open_spec() == weekend_open,
            r.weekend_close_spec() == weekend_close,
    {
        GymSchedule { weekday_open, weekday_close, weekend_open, weekend_close }
    }

    /// Whether the weekend hours apply on `date`.
    fn weekend_hours_apply(date: &CalendarDate) -> (r: bool)
        requires
            date.is_valid(),
        ensures
            r == uses_weekend_hours(*date),
    {
        is_bavarian_holiday(date) || date.weekday_number_from_monday() > 5
    }

    /// Whether the gym is open at the local time `time`: within
    /// `open..close` of the hours that apply on that day, or exactly at the
    /// closing hour with minute 0.
    pub fn is_open(&self, time: &LocalDateTime) -> (r: bool)
        requires
            time.is_valid(),
        ensures
            r == self.is_open_spec(*time),
    {
        let hour = time.hour;
        let minute = time.minute;
        if Self::weekend_hours_apply(&time.date) {
            (self.weekend_open <= hour && hour < self.weekend_close) || (hour
                == self.weekend_close && minute == 0)
        } else {
            (self.weekday_open <= hour && hour < self.weekday_close) || (hour
                == self.weekday_close && minute == 0)
        }
    }

    /// Opening hour that applies on `date`.
    pub fn get_open_hour(&self, date: &CalendarDate) -> (r: u32)
        requires
            date.is_valid(),
        ensures
            r == self.open_hour_on(*date),
    {
        if Self::weekend_hours_apply(date) {
            self.weekend_open
        } else {
            self.weekday_open
        }
    }

    /// Closing hour that applies on `date`.
    pub fn get_close_hour(&self, date: &CalendarDate) -> (r: u32)
        requires
            date.is_valid(),
        ensures
            r == self.close_hour_on(*date),
    {
        if Self::weekend_hours_apply(date) {
            self.weekend_close
        } else {
            self.weekday_close
        }
    }
}

impl Default for GymSchedule {
    /// Weekdays 6:00-23:00, weekends and holidays 9:00-21:00.
    fn default() -> (r: Self)
        ensures
            r.weekday_open_spec() == 6,
            r.weekday_close_spec() == 23,
            r.weekend_open_spec() == 9,
            r.weekend_close_spec() == 21,
    {
        GymSchedule { weekday_open: 6, weekday_close: 23, weekend_open: 9, weekend_close: 21 }
    }
}

/// Whether `date` is a public holiday in Bavaria (fixed-date holidays and
/// those placed relative to Easter Sunday).
pub fn is_bavarian_holiday(date: &CalendarDate) -> (r: bool)
    requires
        date.is_valid(),
    ensures
        r == is_holiday_spec(*date),
{
    let d = date.day;
    let m = date.month;
    if ((m == 1 || m == 5 || m == 11) && d == 1) || (m == 1 && d == 6) || (m == 8 && d == 15) || (
    m == 10 && d == 3) || (m == 12 && (d == 25 || d == 26)) {
        return true;
    }
    match easter_date(date.year) {
        Some(easter) => {
            let ordinal = date.ordinal();
            let easter_ordinal = easter.ordinal();
            (easter_ordinal >= 2 && ordinal == easter_ordinal - 2) || ordinal == easter_ordinal + 1
                || ordinal == easter_ordinal + 39 || ordinal == easter_ordinal + 50 || ordinal
                == easter_ordinal + 60
        },
        None => false,
    }
}

/// Date of Easter Sunday in `year` by the anonymous Gregorian computus, or
/// `None` when the computed month and day do not form a date of that year.
/// For every year from 0 to `MAX_YEAR` it is a Sunday between March 22 and
/// April 25.
pub fn easter_date(year: i32) -> (r: Option<CalendarDate>)
    ensures
        r == easter_spec(year),
        0 <= year <= MAX_YEAR ==> (r matches Some(e) && easter_in_spring(e) && e.weekday_spec()
            == 7),
{
    let a = year % 19;
    assert(a as int == tmod(year as int, 19) && -19 < a < 19);
    let b = year / 100;
    assert(b as int == tdiv(year as int, 100) && -21474837 < b < 21474837);
    let c = year % 100;
    assert(c as int == tmod(year as int, 100) && -100 < c < 100);
    let d = b / 4;
    assert(d as int == tdiv(b as int, 4) && -5368710 < d < 5368710);
    let e = b % 4;
    assert(e as int == tmod(b as int, 4) && -4 < e < 4);
    let f = (b + 8) / 25;
    assert(f as int == tdiv(b + 8, 25) && -858994 < f < 858994);
    let g = (b - f + 1) / 3;
    assert(g as int == tdiv(b - f + 1, 3) && -7444616 < g < 7444616);
    let h = (19 * a + b - d - g + 15) % 30;
    assert(h as int == tmod(19 * a + b - d - g + 15, 30) && -30 < h < 30);
    let i = c / 4;
    assert(i as int == tdiv(c as int, 4) && -25 < i < 25);
    let k = c % 4;
    assert(k as int == tmod(c as int, 4) && -4 < k < 4);
    let l = (32 + 2 * e + 2 * i - h - k) % 7;
    assert(l as int == tmod(32 + 2 * e + 2 * i - h - k, 7) && -7 < l < 7);
    let m = (a + 11 * h + 22 * l) / 451;
    assert(m as int == tdiv(a + 11 * h + 22 * l, 451) && -2 < m < 2);
    let month = (h + l - 7 * m + 114) / 31;
    let day = ((h + l - 7 * m + 114) % 31) + 1;
    assert((month as int, day as int) == easter_raw(year as int));
    proof {
        if 0 <= year <= MAX_YEAR {
            lemma_easter_in_spring(year);
            lemma_easter_on_sunday(year);
        }
    }
    CalendarDate::from_ymd(year, month as u32, day as u32)
}

/// Easter Sunday falls between March 22 and April 25.
pub open spec fn easter_in_spring(e: CalendarDate) -> bool {
    ||| e.month == 3 && 22 <= e.day <= 31
    ||| e.month == 4 && 1 <= e.day <= 25
}

/// For every year from 0 to `MAX_YEAR` the computus yields an existing
/// date, and that date lies between March 22 and April 25.
pub proof fn lemma_easter_in_spring(year: i32)
    requires
        0 <= year <= MAX_YEAR,
    ensures
        easter_spec(year) matches Some(e) && easter_in_spring(e),
{
    let y = year as int;
    let a = tmod(y, 19);
    let b = tdiv(y, 100);
    let c = tmod(y, 100);
    let d = tdiv(b, 4);
    let e = tmod(b, 4);
    let f = tdiv(b + 8, 25);
    let g = tdiv(b - f + 1, 3);
    assert(0 <= a < 19);
    assert(0 <= b);
    assert(0 <= c < 100);
    assert(0 <= d && 0 <= e < 4);
    assert(0 <= f <= b + 1);
    assert(0 <= g);
    assert(19 * a + b - d - g + 15 >= 0);
    let h = tmod(19 * a + b - d - g + 15, 30);
    assert(0 <= h < 30);
    let i = tdiv(c, 4);
    let k = tmod(c, 4);
    assert(0 <= i < 25 && 0 <= k < 4);
    let l = tmod(32 + 2 * e + 2 * i - h - k, 7);
    assert(0 <= l < 7);
    let m = tdiv(a + 11 * h + 22 * l, 451);
    assert(0 <= m <= 1);
    assert(m == 1 ==> h + l >= 7);
    assert(m == 0 ==> h + l <= 34);
    let n = h + l - 7 * m + 114;
    assert(114 <= n <= 148);
    assert(easter_raw(y) == (tdiv(n, 31), tmod(n, 31) + 1));
}

/// Day number of March 22 of a year `y >= 0`, modulo 7, in terms of the
/// computus quantities `e = (y / 100) % 4`, `i = (y % 100) / 4` and
/// `k = (y % 100) % 4`.
#[verifier::spinoff_prover]
proof fn lemma_march_22_mod_7(y: int)
    requires
        y >= 0,
    ensures
        ({
            let b = y / 100;
            let c = y % 100;
            (day_number(y, 3, 22) - (5 * (b % 4) + 5 * (c / 4) + c % 4 + 3)) % 7 == 0
        }),
{
    let b = y / 100;
    let c = y % 100;
    let d = b / 4;
    let e = b % 4;
    let i = c / 4;
    let k = c % 4;
    let p = y - 1;
    assert(y == 100 * b + c && 0 <= c < 100);
    assert(b == 4 * d + e && 0 <= e < 4);
    assert(c == 4 * i + k && 0 <= k < 4);
    let leap: int = if is_leap_year(y) { 1 } else { 0 };
    lemma_div_step(y, 4);
    lemma_div_step(y, 100);
    lemma_div_step(y, 400);
    assert(leap == (if y % 4 == 0 { 1int } else { 0 }) - (if y % 100 == 0 { 1int } else { 0 }) + (
    if y % 400 == 0 { 1int } else { 0 }));
    assert(y / 4 == 25 * b + i);
    assert(y / 400 == d);
    assert(day_number(y, 3, 22) == 365 * p + y / 4 - y / 100 + y / 400 + 81);
    assert(day_number(y, 3, 22) == 146097 * d + 36524 * e + 1461 * i + 365 * k - 284);
    assert(day_number(y, 3, 22) - (5 * e + 5 * i + k + 3) == 7 * (20871 * d + 5217 * e + 208 * i
        + 52 * k - 41));
}

/// For every year from 0 to `MAX_YEAR` the computed Easter date is a
/// Sunday.
#[verifier::spinoff_prover]
#[verifier::rlimit(40)]
pub proof fn lemma_easter_on_sunday(year: i32)
    requires
        0 <= year <= MAX_YEAR,
    ensures
        easter_spec(year) matches Some(e) && e.weekday_spec() == 7,
{
    lemma_easter_in_spring(year);
    lemma_march_22_mod_7(year as int);
    let y = year as int;
    let a = tmod(y, 19);
    let b = tdiv(y, 100);
    let c = tmod(y, 100);
    let d = tdiv(b, 4);
    let e = tmod(b, 4);
    let f = tdiv(b + 8, 25);
    let g = tdiv(b - f + 1, 3);
    let h = tmod(19 * a + b - d - g + 15, 30);
    let i = tdiv(c, 4);
    let k = tmod(c, 4);
    let l = tmod(32 + 2 * e + 2 * i - h - k, 7);
    let m = tdiv(a + 11 * h + 22 * l, 451);
    let n = h + l - 7 * m + 114;
    assert(b == y / 100 && c == y % 100 && e == b % 4 && i == c / 4 && k == c % 4);
    assert(0 <= h < 30 && 0 <= e < 4 && 0 <= i < 25 && 0 <= k < 4);
    let t = tdiv(32 + 2 * e + 2 * i - h - k, 7);
    assert(l == 32 + 2 * e + 2 * i - h - k - 7 * t);
    let easter = easter_spec(year)->0;
    assert(easter.month as int == tdiv(n, 31) && easter.day as int == tmod(n, 31) + 1);
    let march_22 = day_number(y, 3, 22);
    assert(day_number(y, easter.month as int, easter.day as int) == march_22 + h + l - 7 * m) by {
        assert(days_before_year(y) + day_of_year(y, 3, 22) == march_22);
        if easter.month == 3 {
            assert(easter.day as int == n - 92);
        } else {
            assert(easter.day as int == n - 123);
        }
    }
    let q = (march_22 - (5 * e + 5 * i + k + 3)) / 7;
    assert(march_22 == 7 * q + 5 * e + 5 * i + k + 3);
    assert(day_number(y, easter.month as int, easter.day as int) - 1 == 7 * (q + e + i + 4 - t
        - m) + 6);
}

/// The Bavarian public holidays are exactly New Year (1/1), Epiphany (1/6),
/// Labour Day (5/1), Assumption Day (8/15), German Unity Day (10/3), All
/// Saints' Day (11/1), Christmas Day and St. Stephen's Day (12/25, 12/26),
/// and the days 2 before and 1, 39, 50 and 60 after Easter Sunday; no other
/// day, such as Christmas Eve, is one.
pub proof fn lemma_holidays_exactly(date: CalendarDate)
    requires
        date.is_valid(),
    ensures
        is_holiday_spec(date) <==> {
            let (m, d) = (date.month, date.day);
            ||| m == 1 && d == 1
            ||| m == 1 && d == 6
            ||| m == 5 && d == 1
            ||| m == 8 && d == 15
            ||| m == 10 && d == 3
            ||| m == 11 && d == 1
            ||| m == 12 && d == 25
            ||| m == 12 && d == 26
            ||| exists|e: CalendarDate|
                easter_spec(date.year) == Some(e) && {
                    let o = date.ordinal_spec();
                    let eo = e.ordinal_spec();
                    o == eo - 2 || o == eo + 1 || o == eo + 39 || o == eo + 50 || o == eo + 60
                }
        },
{
    if let Some(e) = easter_spec(date.year) {
        assert(easter_spec(date.year) == Some(e));
    }
}

/// Christmas Eve is no public holiday, so on December 24 the weekday hours
/// apply unless it falls on a weekend.
pub proof fn lemma_christmas_eve_not_holiday(date: CalendarDate)
    requires
        date.is_valid(),
        0 <= date.year <= MAX_YEAR,
        date.month == 12,
        date.day == 24,
    ensures
        !is_holiday_spec(date),
        uses_weekend_hours(date) <==> date.weekday_spec() > 5,
{
    lemma_easter_in_spring(date.year);
    let e = easter_spec(date.year)->0;
    assert(e.ordinal_spec() <= day_of_year(date.year as int, 4, 25));
    assert(date.ordinal_spec() == day_of_year(date.year as int, 12, 24));
}

} // verus!
