//! Dashboard figures: revenue of a period, and all-time pending amounts and counts.

use vstd::prelude::*;
use crate::digits::{decimal, padded, push_decimal, push_padded};
use crate::error::InvoiceError;
use crate::numbering::FIRST_INVOICE_YEAR;
use crate::text::{lex_less, lowercase_of, str_eq, str_less, to_lowercase, trim, trimmed_of};

verus! {

/// The length of the period whose revenue the dashboard shows.
#[derive(Clone, Copy, Debug, PartialEq, Eq, Structural)]
pub enum Period {
    Month,
    Quarter,
    Year,
}

pub open spec fn period_from_text(s: Seq<char>) -> Option<Period> {
    if s == "month"@ {
        Some(Period::Month)
    } else if s == "quarter"@ {
        Some(Period::Quarter)
    } else if s == "year"@ {
        Some(Period::Year)
    } else {
        None
    }
}

impl Period {
    /// Reads a period from its name: "month", "quarter" or "year".
    pub fn parse(s: &str) -> (r: Option<Period>)
        ensures
            r == period_from_text(s@),
    {
        if str_eq(s, "month") {
            Some(Period::Month)
        } else if str_eq(s, "quarter") {
            Some(Period::Quarter)
        } else if str_eq(s, "year") {
            Some(Period::Year)
        } else {
            None
        }
    }
}

/// What the dashboard asks for: a period, its year, and a month where the
/// period is a month (for a quarter, the month picks the quarter).
#[derive(Clone, Debug)]
pub struct DashboardQuery {
    pub period: String,
    pub year: i32,
    pub month: Option<i32>,
}

/// Latest year that a dashboard query may name.
pub const LAST_QUERY_YEAR: i32 = 2100;

/// The first field rule that a query breaks: a period name of 1 to 20
/// characters, a year from 2000 to 2100 and a month, where given, from 1 to 12.
pub open spec fn query_field_error(period: Seq<char>, year: i32, month: Option<i32>) -> Option<
    InvoiceError,
> {
    if !(1 <= period.len() <= 20) {
        Some(InvoiceError::InvalidPeriod)
    } else if !(FIRST_INVOICE_YEAR <= year <= LAST_QUERY_YEAR) {
        Some(InvoiceError::InvalidYear)
    } else if month matches Some(m) && !(1 <= m <= 12) {
        Some(InvoiceError::InvalidMonth)
    } else {
        None
    }
}

/// The first rule that a sanitized query breaks, if any: the field rules, a
/// known period name, and a month where the period is a month.
pub open spec fn sanitized_query_error(period: Seq<char>, year: i32, month: Option<i32>) -> Option<
    InvoiceError,
> {
    if query_field_error(period, year, month) is Some {
        query_field_error(period, year, month)
    } else if period_from_text(period) is None {
        Some(InvoiceError::InvalidPeriod)
    } else if period_from_text(period) == Some(Period::Month) && month is None {
        Some(InvoiceError::MonthRequired)
    } else {
        None
    }
}

impl DashboardQuery {
    /// Checks the fields of the query as they stand.
    pub fn validate(&self) -> (r: Result<(), InvoiceError>)
        ensures
            match query_field_error(self.period@, self.year, self.month) {
                Some(e) => r == Err::<(), InvoiceError>(e),
                None => r == Ok::<(), InvoiceError>(()),
            },
    {
        let n = self.period.as_str().unicode_len();
        if n < 1 || n > 20 {
            return Err(InvoiceError::InvalidPeriod);
        }
        if self.year < FIRST_INVOICE_YEAR || self.year > LAST_QUERY_YEAR {
            return Err(InvoiceError::InvalidYear);
        }
        if let Some(m) = self.month {
            if m < 1 || m > 12 {
                return Err(InvoiceError::InvalidMonth);
            }
        }
        Ok(())
    }

    /// Trims the period name and puts it in lower case, then checks the
    /// fields, the period name, and that a month comes with the period "month".
    pub fn validate_and_sanitize(&mut self) -> (r: Result<(), InvoiceError>)
        ensures
            final(self).period@ == lowercase_of(trimmed_of(old(self).period@)),
            final(self).year == old(self).year,
            final(self).month == old(self).month,
            match sanitized_query_error(final(self).period@, final(self).year, final(self).month) {
                Some(e) => r == Err::<(), InvoiceError>(e),
                None => r == Ok::<(), InvoiceError>(()),
            },
    {
        self.period = to_lowercase(trim(self.period.as_str()));
        self.validate()?;
        match Period::parse(self.period.as_str()) {
            None => Err(InvoiceError::InvalidPeriod),
            Some(Period::Month) => {
                if self.month.is_none() {
                    Err(InvoiceError::MonthRequired)
                } else {
                    Ok(())
                }
            },
            Some(_) => Ok(()),
        }
    }
}

/// The part of a stored invoice that the dashboard reads.
#[derive(Clone, Debug)]
pub struct InvoiceSummaryRow {
    pub status: String,
    /// Issue date, "YYYY-MM-DD".
    pub date: String,
    pub total_amount_cents: u64,
}

/// The dashboard figures. Revenue is that of the period; the pending amount
/// and the counts are over all invoices.
#[derive(Clone, Copy, Debug, PartialEq, Eq, Structural)]
pub struct DashboardMetrics {
    /// Sum over paid invoices issued in the period, in cents.
    pub total_revenue_period_cents: u128,
    /// Sum over sent invoices, in cents.
    pub pending_invoices_amount_cents: u128,
    pub total_invoices_count: u64,
    pub paid_invoices_count: u64,
    pub pending_invoices_count: u64,
}

/// "Y-MM-01": the first day of month `m` of year `y`, as the store writes dates.
pub open spec fn month_start_text(y: int, m: int) -> Seq<char> {
    decimal(y as nat) + seq!['-'] + padded(m as nat, 2) + seq!['-', '0', '1']
}

/// First month of the quarter that month `m` lies in.
pub open spec fn quarter_start_month(m: int) -> int {
    ((m - 1) / 3) * 3 + 1
}

/// The half-open window [start, end) of issue dates for a period of `year`;
/// `m` is the month that picks the month or the quarter.
pub open spec fn period_window(p: Period, year: int, m: int) -> (Seq<char>, Seq<char>) {
    match p {
        Period::Month => (
            month_start_text(year, m),
            if m == 12 { month_start_text(year + 1, 1) } else { month_start_text(year, m + 1) },
        ),
        Period::Quarter => {
            let s = quarter_start_month(m);
            (
                month_start_text(year, s),
                if s == 10 { month_start_text(year + 1, 1) } else { month_start_text(year, s + 3) },
            )
        },
        Period::Year => (month_start_text(year, 1), month_start_text(year + 1, 1)),
    }
}

/// The first rule that a dashboard query breaks, if any.
pub open spec fn query_error(period: Seq<char>, year: int, month: Option<i32>, current_year: int) -> Option<
    InvoiceError,
> {
    if year < FIRST_INVOICE_YEAR || year > current_year + 1 {
        Some(InvoiceError::InvalidYear)
    } else if month matches Some(m) && !(1 <= m <= 12) {
        Some(InvoiceError::InvalidMonth)
    } else if period_from_text(period) is None {
        Some(InvoiceError::InvalidPeriod)
    } else {
        None
    }
}

/// The month that picks the window: the one asked for, else the current one.
pub open spec fn chosen_month(month: Option<i32>, current_month: int) -> int {
    match month {
        Some(m) => m as int,
        None => current_month,
    }
}

fn month_start_string(year: i64, month: u32) -> (r: String)
    requires
        0 <= year,
    ensures
        r@ == month_start_text(year as int, month as int),
{
    let mut s = String::new();
    push_decimal(&mut s, year as u128);
    proof {
        reveal_strlit("-");
        reveal_strlit("-01");
    }
    s.append("-");
    push_padded(&mut s, month as u128, 2);
    s.append("-01");
    assert(s@ =~= month_start_text(year as int, month as int));
    s
}

/// Checks a dashboard query and computes its window of issue dates
/// `[start, end)`, written "YYYY-MM-DD". Where no month is given, the current
/// month picks the month or the quarter.
pub fn metrics_window(query: &DashboardQuery, current_year: i32, current_month: u32) -> (r: Result<
    (String, String),
    InvoiceError,
>)
    requires
        1 <= current_month <= 12,
    ensures
        match query_error(query.period@, query.year as int, query.month, current_year as int) {
            Some(e) => r == Err::<(String, String), InvoiceError>(e),
            None => r matches Ok((s, e)) && (s@, e@) == period_window(
                period_from_text(query.period@)->0,
                query.year as int,
                chosen_month(query.month, current_month as int),
            ),
        },
{
    if query.year < FIRST_INVOICE_YEAR || query.year as i64 > current_year as i64 + 1 {
        return Err(InvoiceError::InvalidYear);
    }
    if let Some(m) = query.month {
        if m < 1 || m > 12 {
            return Err(InvoiceError::InvalidMonth);
        }
    }
    let period = match Period::parse(query.period.as_str()) {
        Some(p) => p,
        None => return Err(InvoiceError::InvalidPeriod),
    };
    let month: u32 = match query.month {
        Some(m) => m as u32,
        None => current_month,
    };
    let year: i64 = query.year as i64;
    match period {
        Period::Month => {
            let start = month_start_string(year, month);
            let end = if month == 12 {
                month_start_string(year + 1, 1)
            } else {
                month_start_string(year, month + 1)
            };
            Ok((start, end))
        },
        Period::Quarter => {
            let first = ((month - 1) / 3) * 3 + 1;
            let start = month_start_string(year, first);
            let end = if first == 10 {
                month_start_string(year + 1, 1)
            } else {
                month_start_string(year, first + 3)
            };
            Ok((start, end))
        },
        Period::Year => Ok((month_start_string(year, 1), month_start_string(year + 1, 1))),
    }
}

pub open spec fn is_paid(row: InvoiceSummaryRow) -> bool {
    row.status@ == "paid"@
}

pub open spec fn is_sent(row: InvoiceSummaryRow) -> bool {
    row.status@ == "sent"@
}

/// Whether an issue date lies in the window `[start, end)`, in character order.
pub open spec fn in_window(date: Seq<char>, start: Seq<char>, end: Seq<char>) -> bool {
    !lex_less(date, start) && lex_less(date, end)
}

/// Sum of the amounts of the paid invoices issued in the window.
pub open spec fn revenue_in(rows: Seq<InvoiceSummaryRow>, start: Seq<char>, end: Seq<char>) -> int
    decreases rows.len(),
{
    if rows.len() == 0 {
        0
    } else {
        revenue_in(rows.drop_last(), start, end) + if is_paid(rows.last()) && in_window(
            rows.last().date@,
            start,
            end,
        ) {
            rows.last().total_amount_cents as int
        } else {
            0
        }
    }
}

/// Sum of the amounts of the sent invoices.
pub open spec fn pending_amount(rows: Seq<InvoiceSummaryRow>) -> int
    decreases rows.len(),
{
    if rows.len() == 0 {
        0
    } else {
        pending_amount(rows.drop_last()) + if is_sent(rows.last()) {
            rows.last().total_amount_cents as int
        } else {
            0
        }
    }
}

/// Number of invoices with the given status name.
pub open spec fn count_with_status(rows: Seq<InvoiceSummaryRow>, status: Seq<char>) -> int
    decreases rows.len(),
{
    if rows.len() == 0 {
        0
    } else {
        count_with_status(rows.drop_last(), status) + if rows.last().status@ == status {
            1int
        } else {
            0
        }
    }
}

/// Computes the dashboard figures over all stored invoices: revenue counts only
/// paid invoices issued in `[start, end)`; the pending amount and the counts
/// cover every invoice whatever its date.
pub fn compute_metrics(rows: &Vec<InvoiceSummaryRow>, start: &str, end: &str) -> (r: DashboardMetrics)
    ensures
        r.total_revenue_period_cents == revenue_in(rows@, start@, end@),
        r.pending_invoices_amount_cents == pending_amount(rows@),
        r.total_invoices_count == rows@.len(),
        r.paid_invoices_count == count_with_status(rows@, "paid"@),
        r.pending_invoices_count == count_with_status(rows@, "sent"@),
{
    let mut revenue: u128 = 0;
    let mut pending: u128 = 0;
    let mut paid_count: u64 = 0;
    let mut sent_count: u64 = 0;
    let mut i: usize = 0;
    while i < rows.len()
        invariant
            i <= rows@.len(),
            revenue == revenue_in(rows@.take(i as int), start@, end@),
            pending == pending_amount(rows@.take(i as int)),
            paid_count == count_with_status(rows@.take(i as int), "paid"@),
            sent_count == count_with_status(rows@.take(i as int), "sent"@),
            revenue <= i * 0xffff_ffff_ffff_ffff,
            pending <= i * 0xffff_ffff_ffff_ffff,
            paid_count <= i,
            sent_count <= i,
        decreases rows@.len() - i,
    {
        let row = &rows[i];
        assert(rows@.take(i + 1).drop_last() =~= rows@.take(i as int));
        assert(rows@.take(i + 1).last() == rows@[i as int]);
        let paid = str_eq(row.status.as_str(), "paid");
        let sent = str_eq(row.status.as_str(), "sent");
        if paid {
            paid_count = paid_count + 1;
            if !str_less(row.date.as_str(), start) && str_less(row.date.as_str(), end) {
                revenue = revenue + row.total_amount_cents as u128;
            }
        }
        if sent {
            sent_count = sent_count + 1;
            pending = pending + row.total_amount_cents as u128;
        }
        i = i + 1;
    }
    assert(rows@.take(i as int) =~= rows@);
    DashboardMetrics {
        total_revenue_period_cents: revenue,
        pending_invoices_amount_cents: pending,
        total_invoices_count: rows.len() as u64,
        paid_invoices_count: paid_count,
        pending_invoices_count: sent_count,
    }
}

/// The dashboard figures for a query, over all stored invoices. The window of
/// the revenue follows the query; where no month is given, the current month
/// picks the month or the quarter.
pub fn get_dashboard_metrics(
    query: &DashboardQuery,
    current_year: i32,
    current_month: u32,
    rows: &Vec<InvoiceSummaryRow>,
) -> (r: Result<DashboardMetrics, InvoiceError>)
    requires
        1 <= current_month <= 12,
    ensures
        match query_error(query.period@, query.year as int, query.month, current_year as int) {
            Some(e) => r == Err::<DashboardMetrics, InvoiceError>(e),
            None => r matches Ok(m) && {
                let w = period_window(
                    period_from_text(query.period@)->0,
                    query.year as int,
                    chosen_month(query.month, current_month as int),
                );
                &&& m.total_revenue_period_cents == revenue_in(rows@, w.0, w.1)
                &&& m.pending_invoices_amount_cents == pending_amount(rows@)
                &&& m.total_invoices_count == rows@.len()
                &&& m.paid_invoices_count == count_with_status(rows@, "paid"@)
                &&& m.pending_invoices_count == count_with_status(rows@, "sent"@)
            },
        },
{
    let (start, end) = metrics_window(query, current_year, current_month)?;
    Ok(compute_metrics(rows, start.as_str(), end.as_str()))
}

/// Revenue is windowed, the pending amount is not: adding an invoice changes
/// the revenue of a window only where it is paid and issued in the window, and
/// changes the pending amount by its amount wherever it is sent, whatever its
/// date.
pub proof fn lemma_revenue_windowed_pending_not(
    rows: Seq<InvoiceSummaryRow>,
    row: InvoiceSummaryRow,
    start: Seq<char>,
    end: Seq<char>,
)
    ensures
        revenue_in(rows.push(row), start, end) == revenue_in(rows, start, end) + if is_paid(row)
            && in_window(row.date@, start, end) {
            row.total_amount_cents as int
        } else {
            0
        },
        pending_amount(rows.push(row)) == pending_amount(rows) + if is_sent(row) {
            row.total_amount_cents as int
        } else {
            0
        },
        count_with_status(rows.push(row), "paid"@) == count_with_status(rows, "paid"@) + if is_paid(
            row,
        ) {
            1int
        } else {
            0
        },
{
    assert(rows.push(row).drop_last() =~= rows);
}

} // verus!
