//! Calendar dates in the proleptic Gregorian calendar.
//!
//! A [`Date`] holds its year, month and day as plain numbers. Dates are
//! validated and shifted by `chrono`, whose behaviour is stated here over
//! the day numbering that `chrono` documents for `num_days_from_ce`
//! (January 1 of year 1 is day 1).
use chrono::Datelike;
use vstd::prelude::*;

verus! {

/// Smallest year that a date can have.
pub const MIN_YEAR: i32 = -262143;

/// Largest year that a date can have.
pub const MAX_YEAR: i32 = 262142;

/// Gregorian leap-year rule.
pub open spec fn is_leap_year(y: int) -> bool {
    y % 4 == 0 && (y % 100 != 0 || y % 400 == 0)
}

/// Number of days in month `m` (1-12) of year `y`.
pub open spec fn days_in_month(y: int, m: int) -> int {
    if m == 2 {
        if is_leap_year(y) {
            29
        } else {
            28
        }
    } else if m == 4 || m == 6 || m == 9 || m == 11 {
        30
    } else {
        31
    }
}

/// `(y, m, d)` names an existing day within the supported range of years.
pub open spec fn ymd_valid(y: int, m: int, d: int) -> bool {
    &&& MIN_YEAR <= y <= MAX_YEAR
    &&& 1 <= m <= 12
    &&& 1 <= d <= days_in_month(y, m)
}

/// Days in the years strictly before year `y`, counted from year 1.
pub open spec fn days_before_year(y: int) -> int {
    365 * (y - 1) + (y - 1) / 4 - (y - 1) / 100 + (y - 1) / 400
}

/// Days in the months of year `y` strictly before month `m`.
pub open spec fn days_before_month(y: int, m: int) -> int {
    let base: int = if m <= 1 {
        0
    } else if m == 2 {
        31
    } else if m == 3 {
        59
    } else if m == 4 {
        90
    } else if m == 5 {
        120
    } else if m == 6 {
        151
    } else if m == 7 {
        181
    } else if m == 8 {
        212
    } else if m == 9 {
        243
    } else if m == 10 {
        273
    } else if m == 11 {
        304
    } else {
        334
    };
    if m > 2 && is_leap_year(y) {
        base + 1
    } else {
        base
    }
}

/// A calendar date. A value is meaningful when [`Date::valid`] holds; every
/// date produced by this crate is valid.
#[derive(Clone, Copy, Debug, PartialEq, Eq, Structural, Hash, PartialOrd, Ord)]
pub struct Date {
    pub year: i32,
    pub month: u32,
    pub day: u32,
}

/// Day number of a date: January 1 of year 1 is day 1.
pub open spec fn day_number(d: Date) -> int {
    days_before_year(d.year as int) + days_before_month(d.year as int, d.month as int) + d.day
}

/// Day number of the earliest supported date.
pub open spec fn min_day_number() -> int {
    day_number(Date { year: MIN_YEAR, month: 1, day: 1 })
}

/// Day number of the latest supported date.
pub open spec fn max_day_number() -> int {
    day_number(Date { year: MAX_YEAR, month: 12, day: 31 })
}

/// Chronological order on dates, which for valid dates is the order of
/// year, then month, then day.
pub open spec fn date_lt(a: Date, b: Date) -> bool {
    ||| a.year < b.year
    ||| a.year == b.year && a.month < b.month
    ||| a.year == b.year && a.month == b.month && a.day < b.day
}

/// `a` is the same day as `b` or earlier.
pub open spec fn date_le(a: Date, b: Date) -> bool {
    date_lt(a, b) || a == b
}

/// Every valid date lies within the supported range of day numbers, and
/// that range spans fewer than `i32::MAX` days.
pub proof fn lemma_day_number_bounds(d: Date)
    requires
        d.valid(),
    ensures
        min_day_number() <= day_number(d) <= max_day_number(),
        max_day_number() - min_day_number() < 0x7fff_ffff,
{
    let y = d.year as int;
    assert(days_before_year(MIN_YEAR as int) <= days_before_year(y));
    assert(days_before_month(y, d.month as int) + d.day <= days_before_month(y, 12) + 31);
    if y < MAX_YEAR {
        assert(days_before_year(y) + 365 <= days_before_year(y + 1));
        assert(days_before_year(y + 1) <= days_before_year(MAX_YEAR as int));
    }
}

/// A year holds at least 365 days: the days before a year grow by at least
/// 365 from one year to the next.
proof fn lemma_days_before_year_step(y: int)
    ensures
        days_before_year(y) + 365 <= days_before_year(y + 1),
        days_before_year(y + 1) <= days_before_year(y) + 366,
        days_before_year(y + 1) == days_before_year(y) + if is_leap_year(y) {
            366int
        } else {
            365int
        },
{
}

/// The days before a year grow with the year, by at least 365 a year.
proof fn lemma_days_before_year_mono(a: int, b: int)
    requires
        a < b,
    ensures
        days_before_year(a) + 365 * (b - a) <= days_before_year(b),
    decreases b - a,
{
    lemma_days_before_year_step(a);
    if a + 1 < b {
        lemma_days_before_year_mono(a + 1, b);
    }
}

/// Within a year, a valid day lies after the days of the earlier months
/// and before those of the later ones.
proof fn lemma_days_before_month_mono(y: int, m1: int, d1: int, m2: int)
    requires
        1 <= m1 < m2 <= 12,
        1 <= d1 <= days_in_month(y, m1),
    ensures
        days_before_month(y, m1) + d1 <= days_before_month(y, m2),
{
}

/// Chronological order is the order of day numbers: for valid dates, `a`
/// comes before `b` exactly when its day count from the start of the era is
/// smaller, and they are the same day exactly when the counts are equal.
pub proof fn lemma_date_order_day_number(a: Date, b: Date)
    requires
        a.valid(),
        b.valid(),
    ensures
        date_lt(a, b) <==> day_number(a) < day_number(b),
        a == b <==> day_number(a) == day_number(b),
        date_le(a, b) <==> day_number(a) <= day_number(b),
{
    lemma_date_before(a, b);
    lemma_date_before(b, a);
}

/// A valid date before another has a smaller day number.
proof fn lemma_date_before(a: Date, b: Date)
    requires
        a.valid(),
        b.valid(),
    ensures
        date_lt(a, b) ==> day_number(a) < day_number(b),
        a == b ==> day_number(a) == day_number(b),
{
    let (ya, yb) = (a.year as int, b.year as int);
    if ya < yb {
        lemma_days_before_year_mono(ya, yb);
        lemma_days_before_year_step(ya);
        assert(days_before_month(ya, a.month as int) + a.day <= days_before_month(ya, 12) + 31);
        assert(days_before_month(ya, 12) + 31 <= if is_leap_year(ya) { 366int } else { 365int });
    } else if ya == yb && a.month < b.month {
        lemma_days_before_month_mono(ya, a.month as int, a.day as int, b.month as int);
    }
}

/// `chrono::NaiveDate::from_ymd_opt`: a date exists for `(year, month, day)`
/// exactly when the day exists in the Gregorian calendar and the year lies
/// in `MIN_YEAR..=MAX_YEAR`.
#[verifier::external_body]
fn naive_date_from_ymd_opt(year: i32, month: u32, day: u32) -> (r: Option<Date>)
    ensures
        r is Some <==> ymd_valid(year as int, month as int, day as int),
        r matches Some(d) ==> d.year == year && d.month == month && d.day == day,
{
    chrono::NaiveDate::from_ymd_opt(year, month, day).map(|_| Date { year, month, day })
}

/// `chrono::NaiveDate::checked_add_signed` with a delta of `days` whole
/// days: the date whose day number is `days` more, or `None` when that day
/// lies outside the supported range.
#[verifier::external_body]
fn naive_date_checked_add_days(d: Date, days: i32) -> (r: Option<Date>)
    requires
        d.valid(),
    ensures
        r is Some <==> min_day_number() <= day_number(d) + days <= max_day_number(),
        r matches Some(x) ==> x.valid() && day_number(x) == day_number(d) + days,
{
    let nd = chrono::NaiveDate::from_ymd_opt(d.year, d.month, d.day).unwrap();
    nd.checked_add_signed(chrono::TimeDelta::days(days as i64)).map(
        |x| Date { year: x.year(), month: x.month(), day: x.day() },
    )
}

/// `chrono::Datelike::num_days_from_ce`: the day number of the date.
#[verifier::external_body]
fn naive_date_num_days_from_ce(d: Date) -> (r: i32)
    requires
        d.valid(),
    ensures
        r == day_number(d),
{
    chrono::NaiveDate::from_ymd_opt(d.year, d.month, d.day).unwrap().num_days_from_ce()
}

/// Exec form of the leap-year rule.
pub fn is_leap(year: i32) -> (r: bool)
    ensures
        r == is_leap_year(year as int),
{
    // Shifting by a multiple of 400 years keeps every remainder below and
    // makes the value non-negative.
    let y: i64 = year as i64 + 4_000_000_000i64;
    assert(y as int % 4 == year as int % 4);
    assert(y as int % 100 == year as int % 100);
    assert(y as int % 400 == year as int % 400);
    y % 4 == 0 && (y % 100 != 0 || y % 400 == 0)
}

/// Number of days in `month` of `year`.
pub fn month_length(year: i32, month: u32) -> (r: u32)
    requires
        1 <= month <= 12,
    ensures
        r == days_in_month(year as int, month as int),
        28 <= r <= 31,
{
    if month == 2 {
        if is_leap(year) {
            29
        } else {
            28
        }
    } else if month == 4 || month == 6 || month == 9 || month == 11 {
        30
    } else {
        31
    }
}

impl Date {
    /// The date names an existing day within the supported range.
    pub open spec fn valid(self) -> bool {
        ymd_valid(self.year as int, self.month as int, self.day as int)
    }

    /// Builds the date `(year, month, day)`, or `None` when no such day exists.
    pub fn from_ymd_opt(year: i32, month: u32, day: u32) -> (r: Option<Date>)
        ensures
            r is Some <==> ymd_valid(year as int, month as int, day as int),
            r matches Some(d) ==> d.year == year && d.month == month && d.day == day && d.valid(),
    {
        naive_date_from_ymd_opt(year, month, day)
    }

    /// Day number of this date (January 1 of year 1 is day 1).
    pub fn num_days_from_ce(&self) -> (r: i32)
        requires
            self.valid(),
        ensures
            r == day_number(*self),
    {
        naive_date_num_days_from_ce(*self)
    }

    /// The date `days` days later (earlier for a negative count), or `None`
    /// when it falls outside the supported range.
    pub fn checked_add_days(&self, days: i32) -> (r: Option<Date>)
        requires
            self.valid(),
        ensures
            r is Some <==> min_day_number() <= day_number(*self) + days <= max_day_number(),
            r matches Some(x) ==> x.valid() && day_number(x) == day_number(*self) + days,
    {
        naive_date_checked_add_days(*self, days)
    }

    /// `self` falls strictly before `other`.
    pub fn is_before(&self, other: &Date) -> (r: bool)
        ensures
            r == date_lt(*self, *other),
    {
        self.year < other.year || (self.year == other.year && (self.month < other.month || (
        self.month == other.month && self.day < other.day)))
    }

    /// `self` is the same day as `other`.
    pub fn same_day(&self, other: &Date) -> (r: bool)
        ensures
            r == (*self == *other),
    {
        self.year == other.year && self.month == other.month && self.day == other.day
    }
}

/// A calendar month of a given year.
#[derive(Clone, Copy, Debug, PartialEq, Eq, Structural, Hash)]
pub struct YearMonth {
    pub year: i32,
    pub month: u32,
}

/// An inclusive range of dates.
#[derive(Clone, Copy, Debug, PartialEq, Eq, Structural, Hash)]
pub struct Period {
    pub start: Date,
    pub end: Date,
}

impl Period {
    /// The period from `start` to `end`, both included.
    pub fn new(start: Date, end: Date) -> (r: Period)
        ensures
            r.start == start,
            r.end == end,
    {
        Period { start, end }
    }

    /// `date` lies within the period.
    pub open spec fn spec_contains(self, date: Date) -> bool {
        date_le(self.start, date) && date_le(date, self.end)
    }

    /// `date` lies within the period.
    pub fn contains(&self, date: &Date) -> (r: bool)
        ensures
            r == self.spec_contains(*date),
    {
        (self.start.is_before(date) || self.start.same_day(date)) && (date.is_before(&self.end)
            || date.same_day(&self.end))
    }
}

impl YearMonth {
    /// The month lies within the supported range of years.
    pub open spec fn valid(self) -> bool {
        MIN_YEAR <= self.year <= MAX_YEAR && 1 <= self.month <= 12
    }

    /// Months elapsed since January of year 0.
    pub open spec fn index(self) -> int {
        self.year * 12 + self.month - 1
    }

    /// The given month of the given year.
    pub fn new(year: i32, month: u32) -> (r: YearMonth)
        requires
            1 <= month <= 12,
        ensures
            r.year == year,
            r.month == month,
    {
        YearMonth { year, month }
    }

    /// The month that contains `date`.
    pub open spec fn from_date_spec(date: Date) -> YearMonth {
        YearMonth { year: date.year, month: date.month }
    }

    /// The month that contains `date`.
    pub fn from_date(date: Date) -> (r: YearMonth)
        ensures
            r == YearMonth::from_date_spec(date),
            date.valid() ==> r.valid(),
    {
        YearMonth { year: date.year, month: date.month }
    }

    /// First day of the month.
    pub fn first_day(&self) -> (r: Date)
        requires
            self.valid(),
        ensures
            r == (Date { year: self.year, month: self.month, day: 1 }),
            r.valid(),
    {
        Date { year: self.year, month: self.month, day: 1 }
    }

    /// Last day of the month.
    pub fn last_day(&self) -> (r: Date)
        requires
            self.valid(),
        ensures
            r.year == self.year,
            r.month == self.month,
            r.day == days_in_month(self.year as int, self.month as int),
            r.valid(),
    {
        let day = month_length(self.year, self.month);
        Date { year: self.year, month: self.month, day }
    }

    /// The period from the first to the last day of the month.
    pub open spec fn spec_period(self) -> Period {
        Period {
            start: Date { year: self.year, month: self.month, day: 1 },
            end: Date {
                year: self.year,
                month: self.month,
                day: days_in_month(self.year as int, self.month as int) as u32,
            },
        }
    }

    /// The period from the first to the last day of the month.
    pub fn period(&self) -> (r: Period)
        requires
            self.valid(),
        ensures
            r == self.spec_period(),
            r.start.valid(),
            r.end.valid(),
    {
        Period { start: self.first_day(), end: self.last_day() }
    }
}

} // verus!
