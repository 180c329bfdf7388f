//! Turning logged work sessions into billable line items and totals.

use vstd::prelude::*;
use crate::clock::{clock_time_of, minute_of_day_spec, session_duration_minutes, session_minutes};
use crate::error::InvoiceError;

verus! {

/// A logged work session as the session store holds it.
#[derive(Clone, Debug)]
pub struct SessionEntry {
    pub name: String,
    /// Calendar day, "YYYY-MM-DD".
    pub date: String,
    /// Start, "HH:MM".
    pub start_time: String,
    /// End, "HH:MM".
    pub end_time: String,
}

/// One billed session: what was done, when, for how long and for how much.
#[derive(Clone, Debug)]
pub struct LineItem {
    pub name: String,
    pub date: String,
    pub start_time: String,
    pub end_time: String,
    /// Duration in minutes.
    pub duration_minutes: u32,
    /// Amount in cents.
    pub amount_cents: u64,
}

/// The line items of an invoice with their totals.
#[derive(Clone, Debug)]
pub struct Billing {
    pub items: Vec<LineItem>,
    /// Sum of the durations, in minutes.
    pub total_minutes: u128,
    /// Sum of the line amounts, in cents.
    pub total_amount_cents: u128,
}

/// Duration in minutes of a logged session; a time that cannot be read counts
/// as midnight, and an end before the start means the session ran past midnight.
pub open spec fn entry_minutes(s: SessionEntry) -> int {
    session_minutes(
        minute_of_day_spec(clock_time_of(s.start_time@)),
        minute_of_day_spec(clock_time_of(s.end_time@)),
    )
}

/// Amount in cents for `minutes` of work at `rate` cents per hour, rounded to
/// the nearest cent (halves up).
pub open spec fn line_amount(minutes: int, rate: int) -> int {
    (minutes * rate + 30) / 60
}

pub open spec fn total_minutes(s: Seq<SessionEntry>) -> int
    decreases s.len(),
{
    if s.len() == 0 {
        0
    } else {
        total_minutes(s.drop_last()) + entry_minutes(s.last())
    }
}

pub open spec fn total_amount(s: Seq<SessionEntry>, rate: int) -> int
    decreases s.len(),
{
    if s.len() == 0 {
        0
    } else {
        total_amount(s.drop_last(), rate) + line_amount(entry_minutes(s.last()), rate)
    }
}

/// The line item that bills session `s` at `rate` cents per hour.
pub open spec fn is_line_item_of(item: LineItem, s: SessionEntry, rate: int) -> bool {
    &&& item.name == s.name
    &&& item.date == s.date
    &&& item.start_time == s.start_time
    &&& item.end_time == s.end_time
    &&& item.duration_minutes == entry_minutes(s)
    &&& item.amount_cents == line_amount(entry_minutes(s), rate)
}

/// The amount in cents for `minutes` of work at `hourly_rate_cents` per hour,
/// rounded to the nearest cent.
pub fn line_amount_cents(minutes: u32, hourly_rate_cents: u32) -> (r: u64)
    requires
        minutes < 1440,
    ensures
        r == line_amount(minutes as int, hourly_rate_cents as int),
        r <= 0x100_0000_0000,
{
    assert(minutes as int * hourly_rate_cents as int <= 1439 * 0xffff_ffff) by (nonlinear_arith)
        requires
            minutes < 1440,
            hourly_rate_cents <= 0xffff_ffff,
    ;
    let product: u64 = minutes as u64 * hourly_rate_cents as u64;
    (product + 30) / 60
}

/// The line item for one session at `hourly_rate_cents` per hour.
pub fn line_item(session: &SessionEntry, hourly_rate_cents: u32) -> (r: LineItem)
    ensures
        is_line_item_of(r, *session, hourly_rate_cents as int),
        r.duration_minutes < 1440,
        r.amount_cents <= 0x100_0000_0000,
{
    let minutes = session_duration_minutes(session.start_time.as_str(), session.end_time.as_str());
    let amount = line_amount_cents(minutes, hourly_rate_cents);
    LineItem {
        name: session.name.clone(),
        date: session.date.clone(),
        start_time: session.start_time.clone(),
        end_time: session.end_time.clone(),
        duration_minutes: minutes,
        amount_cents: amount,
    }
}

/// Bills every session at the client's hourly rate (in cents).
///
/// Fails with `NoSessions` where there is no session, then with
/// `InvalidHourlyRate` where the rate is not positive, then with `ZeroAmount`
/// where the sessions amount to nothing.
pub fn aggregate_sessions(sessions: &Vec<SessionEntry>, hourly_rate_cents: i32) -> (r: Result<
    Billing,
    InvoiceError,
>)
    ensures
        sessions@.len() == 0 ==> r == Err::<Billing, InvoiceError>(InvoiceError::NoSessions),
        sessions@.len() > 0 && hourly_rate_cents <= 0 ==> r == Err::<Billing, InvoiceError>(
            InvoiceError::InvalidHourlyRate,
        ),
        sessions@.len() > 0 && hourly_rate_cents > 0 && total_amount(
            sessions@,
            hourly_rate_cents as int,
        ) == 0 ==> r == Err::<Billing, InvoiceError>(InvoiceError::ZeroAmount),
        sessions@.len() > 0 && hourly_rate_cents > 0 && total_amount(
            sessions@,
            hourly_rate_cents as int,
        ) != 0 ==> r is Ok,
        r matches Ok(b) ==> {
            &&& b.items@.len() == sessions@.len()
            &&& forall|i: int|
                0 <= i < sessions@.len() ==> is_line_item_of(
                    #[trigger] b.items@[i],
                    sessions@[i],
                    hourly_rate_cents as int,
                )
            &&& b.total_minutes == total_minutes(sessions@)
            &&& b.total_amount_cents == total_amount(sessions@, hourly_rate_cents as int)
            &&& b.total_amount_cents > 0
        },
{
    if sessions.len() == 0 {
        return Err(InvoiceError::NoSessions);
    }
    if hourly_rate_cents <= 0 {
        return Err(InvoiceError::InvalidHourlyRate);
    }
    let rate: u32 = hourly_rate_cents as u32;
    let mut items: Vec<LineItem> = Vec::new();
    let mut minutes_sum: u128 = 0;
    let mut amount_sum: u128 = 0;
    let mut i: usize = 0;
    while i < sessions.len()
        invariant
            i <= sessions@.len(),
            rate as int == hourly_rate_cents as int,
            items@.len() == i,
            forall|j: int|
                0 <= j < i ==> is_line_item_of(#[trigger] items@[j], sessions@[j], rate as int),
            minutes_sum == total_minutes(sessions@.take(i as int)),
            amount_sum == total_amount(sessions@.take(i as int), rate as int),
            minutes_sum <= i * 1440,
            amount_sum <= i * 0x100_0000_0000,
        decreases sessions@.len() - i,
    {
        let item = line_item(&sessions[i], rate);
        assert(sessions@.take(i + 1).drop_last() =~= sessions@.take(i as int));
        assert(sessions@.take(i + 1).last() == sessions@[i as int]);
        minutes_sum = minutes_sum + item.duration_minutes as u128;
        amount_sum = amount_sum + item.amount_cents as u128;
        items.push(item);
        i = i + 1;
    }
    assert(sessions@.take(i as int) =~= sessions@);
    if amount_sum == 0 {
        return Err(InvoiceError::ZeroAmount);
    }
    Ok(Billing { items, total_minutes: minutes_sum, total_amount_cents: amount_sum })
}

} // verus!
