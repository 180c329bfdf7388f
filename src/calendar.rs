//! Calendar dates of the proleptic Gregorian calendar, as year, month and day.

use vstd::prelude::*;
use crate::digits::{decimal, padded, push_padded};

verus! {

/// Earliest year that the date arithmetic supports.
pub const MIN_YEAR: i32 = -262143;

/// Latest year that the date arithmetic supports.
pub const MAX_YEAR: i32 = 262142;

pub open spec fn is_leap_year(y: int) -> bool {
    (y % 4 == 0 && y % 100 != 0) || y % 400 == 0
}

pub open spec fn days_in_month(y: int, m: int) -> int {
    if m == 2 {
        if is_leap_year(y) { 29 } else { 28 }
    } else if m == 4 || m == 6 || m == 9 || m == 11 {
        30
    } else {
        31
    }
}

pub open spec fn is_valid_date(y: int, m: int, d: int) -> bool {
    &&& MIN_YEAR <= y <= MAX_YEAR
    &&& 1 <= m <= 12
    &&& 1 <= d <= days_in_month(y, m)
}

/// A calendar day: year, month (1 to 12) and day of the month.
#[derive(Clone, Copy, Debug, PartialEq, Eq, Structural)]
pub struct CalendarDate {
    pub year: i32,
    pub month: u32,
    pub day: u32,
}

/// Number of days since the first day of the common era, as chrono counts it
/// (January 1 of year 1 is day 1).
pub uninterp spec fn days_from_ce(y: int, m: int, d: int) -> int;

/// The date `n` days after the given one, as chrono computes it, or `None`
/// where that date lies outside chrono's range.
pub uninterp spec fn date_after_days(y: int, m: int, d: int, n: int) -> Option<(int, int, int)>;

impl CalendarDate {
    pub open spec fn wf(&self) -> bool {
        is_valid_date(self.year as int, self.month as int, self.day as int)
    }

    /// Strict chronological order.
    pub open spec fn before(&self, other: &CalendarDate) -> bool {
        self.year < other.year || (self.year == other.year && (self.month < other.month || (
        self.month == other.month && self.day < other.day)))
    }

    pub open spec fn day_number(&self) -> int {
        days_from_ce(self.year as int, self.month as int, self.day as int)
    }

    /// The date with the given year, month and day, where it exists.
    pub fn new(year: i32, month: u32, day: u32) -> (r: Option<CalendarDate>)
        ensures
            r is Some <==> is_valid_date(year as int, month as int, day as int),
            r matches Some(c) ==> c.year == year && c.month == month && c.day == day,
    {
        if year < MIN_YEAR || year > MAX_YEAR || month < 1 || month > 12 || day < 1 {
            return None;
        }
        let dim = month_length(year, month);
        if day > dim {
            None
        } else {
            Some(CalendarDate { year, month, day })
        }
    }

    /// Whether `self` comes strictly before `other`.
    pub fn is_before(&self, other: &CalendarDate) -> (r: bool)
        ensures
            r == self.before(other),
    {
        self.year < other.year || (self.year == other.year && (self.month < other.month || (
        self.month == other.month && self.day < other.day)))
    }
}

/// Whether `year` is a leap year.
pub fn leap_year(year: i32) -> (r: bool)
    requires
        MIN_YEAR <= year <= MAX_YEAR,
    ensures
        r == is_leap_year(year as int),
{
    // Shifting by a multiple of 400 years keeps the leap-year pattern and
    // makes the value non-negative.
    let shifted: u32 = (year + 400000) as u32;
    assert(is_leap_year(year as int) == is_leap_year(shifted as int)) by {
        let y = year as int;
        assert(shifted as int == y + 400 * 1000);
        assert((y + 400 * 1000) % 4 == y % 4);
        assert((y + 400 * 1000) % 100 == y % 100);
        assert((y + 400 * 1000) % 400 == y % 400);
    }
    (shifted % 4 == 0 && shifted % 100 != 0) || shifted % 400 == 0
}

/// Number of days in the given month of the given year.
pub fn month_length(year: i32, month: u32) -> (r: u32)
    requires
        MIN_YEAR <= year <= MAX_YEAR,
        1 <= month <= 12,
    ensures
        r == days_in_month(year as int, month as int),
{
    if month == 2 {
        if leap_year(year) { 29 } else { 28 }
    } else if month == 4 || month == 6 || month == 9 || month == 11 {
        30
    } else {
        31
    }
}

/// Relies on chrono's `NaiveDate::from_ymd_opt`, which accepts every valid date
/// in the supported year range, and on `Datelike::num_days_from_ce` of that date.
#[verifier::external_body]
fn chrono_day_number(date: &CalendarDate) -> (r: i32)
    requires
        date.wf(),
    ensures
        r as int == days_from_ce(date.year as int, date.month as int, date.day as int),
{
    chrono::Datelike::num_days_from_ce(
        &chrono::NaiveDate::from_ymd_opt(date.year, date.month, date.day).unwrap(),
    )
}

/// Relies on chrono's `NaiveDate::checked_add_days`, on a date made by
/// `NaiveDate::from_ymd_opt` (which accepts every valid date in the supported
/// year range); a date that it returns is a valid date.
#[verifier::external_body]
fn chrono_add_days(date: &CalendarDate, n: u32) -> (r: Option<CalendarDate>)
    requires
        date.wf(),
    ensures
        r matches Some(c) ==> c.wf(),
        r matches Some(c) ==> date_after_days(
            date.year as int,
            date.month as int,
            date.day as int,
            n as int,
        ) == Some((c.year as int, c.month as int, c.day as int)),
        r is None ==> date_after_days(date.year as int, date.month as int, date.day as int, n as int)
            is None,
{
    chrono::NaiveDate::from_ymd_opt(date.year, date.month, date.day).unwrap().checked_add_days(
        chrono::Days::new(n as u64),
    ).map(
        |c| CalendarDate {
            year: chrono::Datelike::year(&c),
            month: chrono::Datelike::month(&c),
            day: chrono::Datelike::day(&c),
        },
    )
}

/// Number of days from `start` to `end` (negative where `end` is earlier).
pub fn days_between(start: &CalendarDate, end: &CalendarDate) -> (r: i64)
    requires
        start.wf(),
        end.wf(),
    ensures
        r == end.day_number() - start.day_number(),
{
    let a = chrono_day_number(start);
    let b = chrono_day_number(end);
    b as i64 - a as i64
}

/// The date `n` days after `date`, where it lies in the supported range.
pub fn add_days(date: &CalendarDate, n: u32) -> (r: Option<CalendarDate>)
    requires
        date.wf(),
    ensures
        r matches Some(c) ==> c.wf(),
        date_after_days(date.year as int, date.month as int, date.day as int, n as int) == (match r {
            Some(c) => Some((c.year as int, c.month as int, c.day as int)),
            None => None,
        }),
{
    chrono_add_days(date, n)
}

/// The year as chrono writes it under "%Y": four digits at least, with a sign
/// outside the years 0 to 9999.
pub open spec fn year_text(y: int) -> Seq<char> {
    if 0 <= y <= 9999 {
        padded(y as nat, 4)
    } else if y < 0 {
        seq!['-'] + padded((-y) as nat, 4)
    } else {
        seq!['+'] + padded(y as nat, 4)
    }
}

/// The date written as "YYYY-MM-DD".
pub open spec fn iso_text(y: int, m: int, d: int) -> Seq<char> {
    year_text(y) + seq!['-'] + padded(m as nat, 2) + seq!['-'] + padded(d as nat, 2)
}

/// The date written as "DD.MM.YYYY".
pub open spec fn dotted_text(y: int, m: int, d: int) -> Seq<char> {
    padded(d as nat, 2) + seq!['.'] + padded(m as nat, 2) + seq!['.'] + year_text(y)
}

/// Appends the year as chrono writes it under "%Y".
pub fn push_year(s: &mut String, year: i32)
    requires
        MIN_YEAR <= year <= MAX_YEAR,
    ensures
        final(s)@ == old(s)@ + year_text(year as int),
{
    if 0 <= year && year <= 9999 {
        push_padded(s, year as u128, 4);
    } else if year < 0 {
        proof { reveal_strlit("-"); }
        s.append("-");
        push_padded(s, (-year) as u128, 4);
    } else {
        proof { reveal_strlit("+"); }
        s.append("+");
        push_padded(s, year as u128, 4);
    }
    assert(final(s)@ =~= old(s)@ + year_text(year as int));
}

/// Writes the parts of a date as "YYYY-MM-DD".
pub fn iso_date_string(year: i32, month: u32, day: u32) -> (r: String)
    requires
        MIN_YEAR <= year <= MAX_YEAR,
    ensures
        r@ == iso_text(year as int, month as int, day as int),
{
    let mut s = String::new();
    push_year(&mut s, year);
    proof { reveal_strlit("-"); }
    s.append("-");
    push_padded(&mut s, month as u128, 2);
    s.append("-");
    push_padded(&mut s, day as u128, 2);
    assert(s@ =~= iso_text(year as int, month as int, day as int));
    s
}

/// Writes the parts of a date as "DD.MM.YYYY".
pub fn dotted_date_string(year: i32, month: u32, day: u32) -> (r: String)
    requires
        MIN_YEAR <= year <= MAX_YEAR,
    ensures
        r@ == dotted_text(year as int, month as int, day as int),
{
    let mut s = String::new();
    push_padded(&mut s, day as u128, 2);
    proof { reveal_strlit("."); }
    s.append(".");
    push_padded(&mut s, month as u128, 2);
    s.append(".");
    push_year(&mut s, year);
    assert(s@ =~= dotted_text(year as int, month as int, day as int));
    s
}

impl CalendarDate {
    /// The date written as "YYYY-MM-DD".
    pub fn to_iso_string(&self) -> (r: String)
        requires
            self.wf(),
        ensures
            r@ == iso_text(self.year as int, self.month as int, self.day as int),
    {
        iso_date_string(self.year, self.month, self.day)
    }
}

} // verus!
