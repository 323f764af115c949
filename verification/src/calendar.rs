//! Plain calendar values (proleptic Gregorian dates and local wall-clock
//! times) that the schedule and repair logic read, with the few calendar
//! queries that are answered by `chrono`.

use vstd::prelude::*;

verus! {

/// Smallest year that a calendar date can carry.
pub const MIN_YEAR: i32 = -262143;

/// Largest year that a calendar date can carry.
pub const MAX_YEAR: i32 = 262142;

/// Rust's truncating integer division (`/` on signed integers), for `b > 0`.
pub open spec fn tdiv(a: int, b: int) -> int {
    if a >= 0 {
        a / b
    } else {
        -((-a) / b)
    }
}

/// Rust's truncating remainder (`%` on signed integers), for `b > 0`.
pub open spec fn tmod(a: int, b: int) -> int {
    a - b * tdiv(a, b)
}

/// Gregorian leap-year rule.
pub open spec fn is_leap_year(y: int) -> bool {
    (y % 4 == 0 && y % 100 != 0) || y % 400 == 0
}

/// Number of days of month `m` (1..=12) in year `y`.
pub open spec fn days_in_month(y: int, m: int) -> int {
    if m == 2 {
        if is_leap_year(y) {
            29
        } else {
            28
        }
    } else if m == 4 || m == 6 || m == 9 || m == 11 {
        30
    } else {
        31
    }
}

/// Number of days of the year that lie before the first day of month `m`.
pub open spec fn days_before_month(y: int, m: int) -> int {
    let leap_extra: int = if is_leap_year(y) && m > 2 {
        1
    } else {
        0
    };
    let base: int = if m <= 1 {
        0
    } else if m == 2 {
        31
    } else if m == 3 {
        59
    } else if m == 4 {
        90
    } else if m == 5 {
        120
    } else if m == 6 {
        151
    } else if m == 7 {
        181
    } else if m == 8 {
        212
    } else if m == 9 {
        243
    } else if m == 10 {
        273
    } else if m == 11 {
        304
    } else {
        334
    };
    base + leap_extra
}

/// Day of the year, counting January 1 as day 1.
pub open spec fn day_of_year(y: int, m: int, d: int) -> int {
    days_before_month(y, m) + d
}

/// `(y, m, d)` names an existing day within the supported range of years.
pub open spec fn is_valid_ymd(y: int, m: int, d: int) -> bool {
    &&& MIN_YEAR <= y <= MAX_YEAR
    &&& 1 <= m <= 12
    &&& 1 <= d <= days_in_month(y, m)
}

/// Number of days of the years before year `y`, counted from January 1 of
/// year 1 (floor division makes this hold for years before 1 as well).
pub open spec fn days_before_year(y: int) -> int {
    let p = y - 1;
    365 * p + p / 4 - p / 100 + p / 400
}

/// Day number of `y-m-d` in the proleptic Gregorian calendar, January 1 of
/// year 1 being day 1.
pub open spec fn day_number(y: int, m: int, d: int) -> int {
    days_before_year(y) + day_of_year(y, m, d)
}

/// Day of the week, Monday = 1 through Sunday = 7 (January 1 of year 1 was
/// a Monday).
pub open spec fn weekday_from_monday(y: int, m: int, d: int) -> int {
    (day_number(y, m, d) - 1) % 7 + 1
}

/// A calendar date in the proleptic Gregorian calendar.
#[derive(Debug, Clone, Copy, PartialEq, Eq, Structural)]
pub struct CalendarDate {
    pub year: i32,
    pub month: u32,
    pub day: u32,
}

/// A local wall-clock time: a date plus hour and minute.
#[derive(Debug, Clone, Copy, PartialEq, Eq, Structural)]
pub struct LocalDateTime {
    pub date: CalendarDate,
    pub hour: u32,
    pub minute: u32,
}

impl CalendarDate {
    /// The date names an existing day.
    pub open spec fn is_valid(&self) -> bool {
        is_valid_ymd(self.year as int, self.month as int, self.day as int)
    }

    /// Day of the year of this date (January 1 is day 1).
    pub open spec fn ordinal_spec(&self) -> int {
        day_of_year(self.year as int, self.month as int, self.day as int)
    }

    /// Day number of this date (January 1 of year 1 is day 1).
    pub closed spec fn day_number_spec(&self) -> int {
        day_number(self.year as int, self.month as int, self.day as int)
    }

    /// Day of the week of this date, Monday = 1 through Sunday = 7.
    pub open spec fn weekday_spec(&self) -> int {
        weekday_from_monday(self.year as int, self.month as int, self.day as int)
    }

    /// Builds the date `year-month-day`, or `None` when no such day exists.
    pub fn from_ymd(year: i32, month: u32, day: u32) -> (r: Option<CalendarDate>)
        ensures
            r is Some <==> is_valid_ymd(year as int, month as int, day as int),
            r matches Some(date) ==> date == (CalendarDate { year, month, day }),
    {
        if ymd_exists(year, month, day) {
            Some(CalendarDate { year, month, day })
        } else {
            None
        }
    }

    /// Day of the year (January 1 is day 1).
    pub fn ordinal(&self) -> (r: u32)
        requires
            self.is_valid(),
        ensures
            r as int == self.ordinal_spec(),
            1 <= r <= 366,
    {
        day_of_year_of(self.year, self.month, self.day)
    }

    /// Day of the week, Monday = 1 through Sunday = 7.
    pub fn weekday_number_from_monday(&self) -> (r: u32)
        requires
            self.is_valid(),
        ensures
            r == self.weekday_spec(),
            1 <= r <= 7,
    {
        weekday_number_of(self.year, self.month, self.day)
    }
}

impl LocalDateTime {
    /// The date exists and the hour and minute are on a 24-hour clock.
    pub open spec fn is_valid(&self) -> bool {
        &&& self.date.is_valid()
        &&& self.hour < 24
        &&& self.minute < 60
    }
}

/// Whether a calendar date lies strictly after another.
pub open spec fn date_after(a: CalendarDate, b: CalendarDate) -> bool {
    a.year > b.year || (a.year == b.year && (a.month > b.month || (a.month == b.month && a.day
        > b.day)))
}

/// `a` lies strictly after `b` in the calendar.
pub fn is_date_after(a: &CalendarDate, b: &CalendarDate) -> (r: bool)
    ensures
        r == date_after(*a, *b),
{
    a.year > b.year || (a.year == b.year && (a.month > b.month || (a.month == b.month && a.day
        > b.day)))
}

/// The calendar date after `d`, or `None` after December 31 of `MAX_YEAR`.
pub open spec fn next_date_spec(d: CalendarDate) -> Option<CalendarDate> {
    if (d.day as int) < days_in_month(d.year as int, d.month as int) {
        Some(CalendarDate { year: d.year, month: d.month, day: (d.day + 1) as u32 })
    } else if d.month < 12 {
        Some(CalendarDate { year: d.year, month: (d.month + 1) as u32, day: 1 })
    } else if d.year < MAX_YEAR {
        Some(CalendarDate { year: (d.year + 1) as i32, month: 1, day: 1 })
    } else {
        None
    }
}

/// Going from `y - 1` to `y`, the quotient by `d` grows by one exactly when
/// `d` divides `y`.
pub(crate) proof fn lemma_div_step(y: int, d: int)
    requires
        d > 0,
    ensures
        (y - 1) / d + (if y % d == 0 {
            1int
        } else {
            0
        }) == y / d,
{
    let q = y / d;
    let r = y % d;
    vstd::arithmetic::div_mod::lemma_fundamental_div_mod(y, d);
    assert(0 <= r < d);
    assert(d * q == q * d) by (nonlinear_arith);
    if r == 0 {
        assert((q - 1) * d == q * d - d) by (nonlinear_arith);
        vstd::arithmetic::div_mod::lemma_fundamental_div_mod_converse(y - 1, d, q - 1, d - 1);
    } else {
        vstd::arithmetic::div_mod::lemma_fundamental_div_mod_converse(y - 1, d, q, r - 1);
    }
}

/// Day number of the first representable date, January 1 of `MIN_YEAR`.
pub open spec fn first_day_number() -> int {
    day_number(MIN_YEAR as int, 1, 1)
}

/// Day number of the last representable date, December 31 of `MAX_YEAR`.
pub open spec fn last_day_number() -> int {
    day_number(MAX_YEAR as int, 12, 31)
}

/// The valid date with day number `n` (for `n` between the first and the
/// last representable day number there is exactly one).
pub open spec fn date_of_number(n: int) -> CalendarDate {
    choose|d: CalendarDate| d.is_valid() && d.day_number_spec() == n
}

/// Every valid date lies between the first and the last representable date.
pub proof fn lemma_day_number_bounds(d: CalendarDate)
    requires
        d.is_valid(),
    ensures
        first_day_number() <= d.day_number_spec() <= last_day_number(),
{
    let first = CalendarDate { year: MIN_YEAR, month: 1, day: 1 };
    let last = CalendarDate { year: MAX_YEAR, month: 12, day: 31 };
    lemma_date_order(first, d);
    lemma_date_order(d, last);
}

/// A valid date is the date of its day number.
pub proof fn lemma_date_of_own_number(d: CalendarDate)
    requires
        d.is_valid(),
    ensures
        date_of_number(d.day_number_spec()) == d,
{
    let e = date_of_number(d.day_number_spec());
    assert(d.is_valid() && d.day_number_spec() == d.day_number_spec());
    lemma_date_order(e, d);
}

/// A year has 365 days, 366 in a leap year.
proof fn lemma_year_length(y: int)
    ensures
        days_before_year(y + 1) == days_before_year(y) + 365 + (if is_leap_year(y) {
            1int
        } else {
            0
        }),
{
    lemma_div_step(y, 4);
    lemma_div_step(y, 100);
    lemma_div_step(y, 400);
}

/// Later years start on later days.
proof fn lemma_days_before_year_monotone(y1: int, y2: int)
    requires
        y1 <= y2,
    ensures
        days_before_year(y1) + 365 * (y2 - y1) <= days_before_year(y2),
    decreases y2 - y1,
{
    if y1 < y2 {
        lemma_year_length(y2 - 1);
        lemma_days_before_year_monotone(y1, y2 - 1);
    }
}

/// The last day of a month is followed by the first of the next month.
proof fn lemma_month_length(y: int, m: int)
    requires
        1 <= m < 12,
    ensures
        days_before_month(y, m + 1) == days_before_month(y, m) + days_in_month(y, m),
{
}

/// Later months of a year start on later days of the year.
proof fn lemma_days_before_month_monotone(y: int, m1: int, m2: int)
    requires
        1 <= m1 < m2 <= 12,
    ensures
        days_before_month(y, m1) + days_in_month(y, m1) <= days_before_month(y, m2),
    decreases m2 - m1,
{
    lemma_month_length(y, m1);
    if m1 + 1 < m2 {
        lemma_days_before_month_monotone(y, m1 + 1, m2);
    }
}

/// The day after a valid date exists unless it is December 31 of
/// `MAX_YEAR`, and its day number is one more.
pub proof fn lemma_next_date(d: CalendarDate)
    requires
        d.is_valid(),
    ensures
        next_date_spec(d) is None <==> (d.year == MAX_YEAR && d.month == 12 && d.day == 31),
        next_date_spec(d) matches Some(n) ==> n.is_valid() && n.day_number_spec()
            == d.day_number_spec() + 1 && date_after(n, d),
{
    let y = d.year as int;
    let m = d.month as int;
    if (d.day as int) < days_in_month(y, m) {
    } else if m < 12 {
        lemma_month_length(y, m);
    } else if y < MAX_YEAR {
        lemma_year_length(y);
    }
}

/// The calendar order of valid dates is the order of their day numbers.
pub proof fn lemma_date_order(a: CalendarDate, b: CalendarDate)
    requires
        a.is_valid(),
        b.is_valid(),
    ensures
        date_after(a, b) <==> a.day_number_spec() > b.day_number_spec(),
        a.day_number_spec() == b.day_number_spec() <==> a == b,
{
    if date_after(b, a) {
        lemma_date_before_number(a, b);
    }
    if date_after(a, b) {
        lemma_date_before_number(b, a);
    }
}

/// A valid date that comes before another in the calendar has the smaller
/// day number.
proof fn lemma_date_before_number(a: CalendarDate, b: CalendarDate)
    requires
        a.is_valid(),
        b.is_valid(),
        date_after(b, a),
    ensures
        a.day_number_spec() < b.day_number_spec(),
{
    let (ya, ma) = (a.year as int, a.month as int);
    let (yb, mb) = (b.year as int, b.month as int);
    if ya < yb {
        if ma < 12 {
            lemma_days_before_month_monotone(ya, ma, 12);
        }
        lemma_year_length(ya);
        lemma_days_before_year_monotone(ya + 1, yb);
    } else if ma < mb {
        lemma_days_before_month_monotone(ya, ma, mb);
    }
}

/// Calls `chrono::NaiveDate::from_ymd_opt`: it returns a date exactly when
/// `month` is 1..=12, `day` exists in that month of that (leap-aware) year
/// and `year` lies in chrono's range `MIN_YEAR..=MAX_YEAR`.
#[verifier::external_body]
fn ymd_exists(year: i32, month: u32, day: u32) -> (r: bool)
    ensures
        r == is_valid_ymd(year as int, month as int, day as int),
{
    chrono::NaiveDate::from_ymd_opt(year, month, day).is_some()
}

/// Calls `chrono::Datelike::ordinal` on the date built by
/// `chrono::NaiveDate::from_ymd_opt`: the day of the year, January 1 being 1.
#[verifier::external_body]
fn day_of_year_of(year: i32, month: u32, day: u32) -> (r: u32)
    requires
        is_valid_ymd(year as int, month as int, day as int),
    ensures
        r as int == day_of_year(year as int, month as int, day as int),
{
    match chrono::NaiveDate::from_ymd_opt(year, month, day) {
        Some(date) => chrono::Datelike::ordinal(&date),
        None => 0,
    }
}

/// Calls `chrono::Weekday::number_from_monday` on the weekday of the date
/// built by `chrono::NaiveDate::from_ymd_opt`: the day of the week in the
/// proleptic Gregorian calendar, Monday = 1 through Sunday = 7.
#[verifier::external_body]
fn weekday_number_of(year: i32, month: u32, day: u32) -> (r: u32)
    requires
        is_valid_ymd(year as int, month as int, day as int),
    ensures
        r as int == weekday_from_monday(year as int, month as int, day as int),
{
    match chrono::NaiveDate::from_ymd_opt(year, month, day) {
        Some(date) => chrono::Datelike::weekday(&date).number_from_monday(),
        None => 0,
    }
}

/// Calls `chrono::NaiveDate::succ_opt` on the date built by
/// `chrono::NaiveDate::from_ymd_opt`: the next calendar date, or `None` for
/// the last representable date, December 31 of `MAX_YEAR`.
#[verifier::external_body]
pub(crate) fn next_date_of(year: i32, month: u32, day: u32) -> (r: Option<CalendarDate>)
    requires
        is_valid_ymd(year as int, month as int, day as int),
    ensures
        r == next_date_spec(CalendarDate { year, month, day }),
{
    let next = chrono::NaiveDate::from_ymd_opt(year, month, day)?.succ_opt()?;
    Some(
        CalendarDate {
            year: chrono::Datelike::year(&next),
            month: chrono::Datelike::month(&next),
            day: chrono::Datelike::day(&next),
        },
    )
}

/// Calls `chrono::NaiveDate::checked_sub_signed` with
/// `chrono::TimeDelta::try_days(days)` on the date built by
/// `chrono::NaiveDate::from_ymd_opt`: the date `days` days earlier (later for
/// negative `days`), or `None` when that date is not representable.
#[verifier::external_body]
pub(crate) fn date_minus_days(year: i32, month: u32, day: u32, days: i64) -> (r: Option<
    CalendarDate,
>)
    requires
        is_valid_ymd(year as int, month as int, day as int),
    ensures
        r is Some <==> first_day_number() <= (CalendarDate { year, month, day }).day_number_spec()
            - days <= last_day_number(),
        r matches Some(e) ==> e.is_valid() && e.day_number_spec() == (CalendarDate {
            year,
            month,
            day,
        }).day_number_spec() - days,
{
    let date = chrono::NaiveDate::from_ymd_opt(year, month, day)?;
    let earlier = date.checked_sub_signed(chrono::TimeDelta::try_days(days)?)?;
    Some(
        CalendarDate {
            year: chrono::Datelike::year(&earlier),
            month: chrono::Datelike::month(&earlier),
            day: chrono::Datelike::day(&earlier),
        },
    )
}

} // verus!
