//! Wall-clock times of day ("HH:MM") and the length of a work session.

use vstd::prelude::*;

verus! {

/// Minutes in a day.
pub const MINUTES_PER_DAY: u32 = 1440;

/// The (hour, minute) that chrono reads from a text under the format "%H:%M",
/// or `None` where it rejects the text.
pub uninterp spec fn clock_time_of(s: Seq<char>) -> Option<(int, int)>;

pub open spec fn is_ascii_digit(c: char) -> bool {
    '0' <= c && c <= '9'
}

pub open spec fn digit_value(c: char) -> int {
    (c as int) - ('0' as int)
}

/// Exactly two digits, a colon and two digits, naming a valid time of day.
pub open spec fn is_canonical_clock_text(s: Seq<char>) -> bool {
    &&& s.len() == 5
    &&& is_ascii_digit(s[0]) && is_ascii_digit(s[1])
    &&& s[2] == ':'
    &&& is_ascii_digit(s[3]) && is_ascii_digit(s[4])
    &&& digit_value(s[0]) * 10 + digit_value(s[1]) < 24
    &&& digit_value(s[3]) * 10 + digit_value(s[4]) < 60
}

pub open spec fn canonical_clock_value(s: Seq<char>) -> (int, int) {
    (digit_value(s[0]) * 10 + digit_value(s[1]), digit_value(s[3]) * 10 + digit_value(s[4]))
}

/// A parsed (hour, minute) pair as mathematical integers.
pub open spec fn widen(t: Option<(u32, u32)>) -> Option<(int, int)> {
    match t {
        Some((h, m)) => Some((h as int, m as int)),
        None => None,
    }
}

/// A parsed (hour, minute) pair, where present, names a time of day.
pub open spec fn in_day(t: Option<(u32, u32)>) -> bool {
    t matches Some((h, m)) ==> h < 24 && m < 60
}

/// Relies on chrono's `NaiveTime::parse_from_str` with the format "%H:%M",
/// and on `Timelike::hour` / `Timelike::minute` of the time it returns:
/// the result depends on the text alone, a parsed hour is below 24 and a
/// parsed minute below 60, and a text of the form "HH:MM" with a valid hour
/// and minute reads as those numbers.
#[verifier::external_body]
fn parse_clock_time(s: &str) -> (r: Option<(u32, u32)>)
    ensures
        widen(r) == clock_time_of(s@),
        in_day(r),
        is_canonical_clock_text(s@) ==> widen(r) == Some(canonical_clock_value(s@)),
{
    chrono::NaiveTime::parse_from_str(s, "%H:%M").ok().map(
        |t| (chrono::Timelike::hour(&t), chrono::Timelike::minute(&t)),
    )
}

/// Minute of the day for a parsed time; a time that could not be read counts as midnight.
pub open spec fn minute_of_day_spec(t: Option<(int, int)>) -> int {
    match t {
        Some((h, m)) => h * 60 + m,
        None => 0,
    }
}

/// Length in minutes of a session from `start` to `end` (minutes of the day).
/// An end before the start means that the session ran past midnight.
pub open spec fn session_minutes(start: int, end: int) -> int {
    if end < start {
        end + 1440 - start
    } else {
        end - start
    }
}

/// The minute of the day of a parsed time, midnight where nothing was parsed.
pub fn minute_of_day(t: Option<(u32, u32)>) -> (r: u32)
    requires
        in_day(t),
    ensures
        r == minute_of_day_spec(widen(t)),
        r < MINUTES_PER_DAY,
{
    match t {
        Some((h, m)) => h * 60 + m,
        None => 0,
    }
}

/// Reads a time of day written "HH:MM" and returns its minute of the day;
/// text that does not read as a time counts as midnight.
pub fn parse_minute_of_day(s: &str) -> (r: u32)
    ensures
        r == minute_of_day_spec(clock_time_of(s@)),
        r < MINUTES_PER_DAY,
{
    let t = parse_clock_time(s);
    minute_of_day(t)
}

/// Length of a session in minutes, given its start and end as minutes of the day.
pub fn duration_minutes(start: u32, end: u32) -> (r: u32)
    requires
        start < MINUTES_PER_DAY,
        end < MINUTES_PER_DAY,
    ensures
        r == session_minutes(start as int, end as int),
        r < MINUTES_PER_DAY,
{
    if end < start {
        end + MINUTES_PER_DAY - start
    } else {
        end - start
    }
}

/// Length of a session in minutes, from its start and end times as written ("HH:MM").
pub fn session_duration_minutes(start_time: &str, end_time: &str) -> (r: u32)
    ensures
        r == session_minutes(
            minute_of_day_spec(clock_time_of(start_time@)),
            minute_of_day_spec(clock_time_of(end_time@)),
        ),
        r < MINUTES_PER_DAY,
{
    let start = parse_minute_of_day(start_time);
    let end = parse_minute_of_day(end_time);
    duration_minutes(start, end)
}

} // verus!
