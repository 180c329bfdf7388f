//! Generating an invoice: validation of the request, numbering, billing and
//! the record to store, from the data that the stores hand over.

use vstd::prelude::*;
use crate::billing::{aggregate_sessions, is_line_item_of, total_amount, total_minutes, Billing, SessionEntry};
use crate::calendar::{add_days, date_after_days, days_between, iso_text, CalendarDate};
use crate::error::InvoiceError;
use crate::digits::{decimal, padded};
use crate::numbering::{
    invoice_number, invoice_number_text, lemma_sequence_gap_free, max_sequence_in_year,
    next_sequence_in_year, next_sequence_number, numbering_year_ok, pdf_path, pdf_path_text,
};
use crate::status::InvoiceStatus;
use crate::text::{lowercase_of, to_lowercase, trim, trimmed_of};

verus! {

/// Longest period, in days from start to end, that one invoice may bill.
pub const MAX_PERIOD_DAYS: i64 = 365;

/// Days from the issue date to the due date.
pub const PAYMENT_TERM_DAYS: u32 = 30;

/// The operator's billing identity, the sender of every invoice.
#[derive(Clone, Debug)]
pub struct Profile {
    pub name: String,
    pub address: String,
    pub tax_id: Option<String>,
    /// Free text; may hold the placeholder `{invoice_number}`.
    pub bank_details: Option<String>,
}

/// The recipient of an invoice.
#[derive(Clone, Debug)]
pub struct Client {
    pub id: i32,
    pub name: String,
    pub address: String,
    pub contact_person: Option<String>,
    /// Hourly rate in cents.
    pub hourly_rate_cents: i32,
}

/// A request to bill a client's sessions of a period.
#[derive(Clone, Debug)]
pub struct InvoiceRequest {
    pub client_id: i32,
    pub start_date: CalendarDate,
    pub end_date: CalendarDate,
    pub language: Option<String>,
}

/// Everything that the rendered invoice shows.
#[derive(Clone, Debug)]
pub struct InvoiceDocument {
    pub invoice_number: String,
    /// Issue date, "YYYY-MM-DD".
    pub date: String,
    pub profile: Profile,
    pub client: Client,
    pub billing: Billing,
}

/// The invoice row to store.
#[derive(Clone, Debug)]
pub struct NewInvoice {
    pub invoice_number: String,
    pub client_id: i32,
    /// Issue date, "YYYY-MM-DD".
    pub date: String,
    pub total_amount_cents: u128,
    pub pdf_path: String,
    pub status: InvoiceStatus,
    /// Issue date plus the payment term, "YYYY-MM-DD".
    pub due_date: Option<String>,
    pub year: i32,
    pub sequence_number: u32,
}

/// A generated invoice: the document to render and the row to store.
#[derive(Clone, Debug)]
pub struct GeneratedInvoice {
    pub document: InvoiceDocument,
    pub record: NewInvoice,
}

impl InvoiceRequest {
    pub open spec fn wf(&self) -> bool {
        self.start_date.wf() && self.end_date.wf()
    }
}

/// A language code after sanitizing: trimmed and in lower case; an empty code
/// becomes no code.
pub open spec fn sanitized_language(code: Option<Seq<char>>) -> Option<Seq<char>> {
    match code {
        Some(c) => {
            let t = lowercase_of(trimmed_of(c));
            if t.len() == 0 {
                None
            } else {
                Some(t)
            }
        },
        None => None,
    }
}

pub open spec fn language_view(code: Option<String>) -> Option<Seq<char>> {
    match code {
        Some(c) => Some(c@),
        None => None,
    }
}

/// The first field rule that a request breaks: a client id of at least 1 and
/// a language code, where given, of 2 to 5 characters.
pub open spec fn request_field_error(client_id: i32, language: Option<Seq<char>>) -> Option<InvoiceError> {
    if client_id < 1 {
        Some(InvoiceError::InvalidClientId)
    } else if language matches Some(l) && !(2 <= l.len() <= 5) {
        Some(InvoiceError::InvalidLanguage)
    } else {
        None
    }
}

impl InvoiceRequest {
    /// Checks the fields of the request as they stand: a client id of at least
    /// 1, and a language code, where given, of 2 to 5 characters.
    pub fn validate(&self) -> (r: Result<(), InvoiceError>)
        ensures
            match request_field_error(self.client_id, language_view(self.language)) {
                Some(e) => r == Err::<(), InvoiceError>(e),
                None => r == Ok::<(), InvoiceError>(()),
            },
    {
        if self.client_id < 1 {
            return Err(InvoiceError::InvalidClientId);
        }
        match &self.language {
            Some(l) => {
                let n = l.as_str().unicode_len();
                if n < 2 || n > 5 {
                    return Err(InvoiceError::InvalidLanguage);
                }
            },
            None => {},
        }
        Ok(())
    }

    /// Trims the language code and puts it in lower case (an empty code is
    /// dropped), then checks the fields and that the end date is after the
    /// start date.
    pub fn validate_and_sanitize(&mut self) -> (r: Result<(), InvoiceError>)
        ensures
            final(self).client_id == old(self).client_id,
            final(self).start_date == old(self).start_date,
            final(self).end_date == old(self).end_date,
            language_view(final(self).language) == sanitized_language(language_view(old(self).language)),
            match request_field_error(final(self).client_id, language_view(final(self).language)) {
                Some(e) => r == Err::<(), InvoiceError>(e),
                None => if final(self).start_date.before(&final(self).end_date) {
                    r == Ok::<(), InvoiceError>(())
                } else {
                    r == Err::<(), InvoiceError>(InvoiceError::InvalidDateRange)
                },
            },
    {
        let sanitized = match &self.language {
            Some(l) => {
                let t = to_lowercase(trim(l.as_str()));
                if t.as_str().unicode_len() == 0 {
                    None
                } else {
                    Some(t)
                }
            },
            None => None,
        };
        self.language = sanitized;
        self.validate()?;
        if !self.start_date.is_before(&self.end_date) {
            return Err(InvoiceError::InvalidDateRange);
        }
        Ok(())
    }
}

/// The first rule that a request breaks, given the number of days from its
/// start to its end date.
pub open spec fn request_error(req: InvoiceRequest, span_days: int) -> Option<InvoiceError> {
    if req.client_id <= 0 {
        Some(InvoiceError::InvalidClientId)
    } else if !req.start_date.before(&req.end_date) {
        Some(InvoiceError::InvalidDateRange)
    } else if span_days > MAX_PERIOD_DAYS {
        Some(InvoiceError::DateRangeTooLong)
    } else {
        None
    }
}

/// Number of days from the request's start date to its end date.
pub open spec fn request_span(req: InvoiceRequest) -> int {
    req.end_date.day_number() - req.start_date.day_number()
}

/// The sequence number that follows the highest stored one.
pub open spec fn following_sequence(max_existing: Option<u32>) -> int {
    match max_existing {
        Some(m) => m + 1,
        None => 1,
    }
}

/// The first reason why an invoice cannot be generated, if any.
pub open spec fn generation_error(
    req: InvoiceRequest,
    span_days: int,
    today: CalendarDate,
    profile_found: bool,
    client: Option<Client>,
    max_existing: Option<u32>,
    sessions: Seq<SessionEntry>,
) -> Option<InvoiceError> {
    if request_error(req, span_days) is Some {
        request_error(req, span_days)
    } else if !profile_found {
        Some(InvoiceError::ProfileNotFound)
    } else if client is None {
        Some(InvoiceError::ClientNotFound)
    } else if !numbering_year_ok(today.year as int, today.year as int) {
        Some(InvoiceError::InvalidYear)
    } else if following_sequence(max_existing) > u32::MAX {
        Some(InvoiceError::SequenceExhausted)
    } else if sessions.len() == 0 {
        Some(InvoiceError::NoSessions)
    } else if client->0.hourly_rate_cents <= 0 {
        Some(InvoiceError::InvalidHourlyRate)
    } else if total_amount(sessions, client->0.hourly_rate_cents as int) == 0 {
        Some(InvoiceError::ZeroAmount)
    } else {
        None
    }
}

/// What a generated invoice holds, for the given inputs.
pub open spec fn is_generated_from(
    g: GeneratedInvoice,
    req: InvoiceRequest,
    today: CalendarDate,
    profile: Profile,
    client: Client,
    max_existing: Option<u32>,
    sessions: Seq<SessionEntry>,
) -> bool {
    let seq = following_sequence(max_existing);
    let number = invoice_number_text(today.year as int, seq);
    let rate = client.hourly_rate_cents as int;
    let issued = iso_text(today.year as int, today.month as int, today.day as int);
    &&& g.record.sequence_number == seq
    &&& g.record.year == today.year
    &&& g.record.invoice_number@ == number
    &&& g.record.client_id == req.client_id
    &&& g.record.date@ == issued
    &&& g.record.total_amount_cents == total_amount(sessions, rate)
    &&& g.record.pdf_path@ == pdf_path_text(number)
    &&& g.record.status == InvoiceStatus::Created
    &&& match date_after_days(today.year as int, today.month as int, today.day as int, PAYMENT_TERM_DAYS as int) {
        Some((y, m, d)) => g.record.due_date matches Some(t) && t@ == iso_text(y, m, d),
        None => g.record.due_date is None,
    }
    &&& g.document.invoice_number@ == number
    &&& g.document.date@ == issued
    &&& g.document.profile == profile
    &&& g.document.client == client
    &&& g.document.billing.items@.len() == sessions.len()
    &&& forall|i: int|
        0 <= i < sessions.len() ==> is_line_item_of(
            #[trigger] g.document.billing.items@[i],
            sessions[i],
            rate,
        )
    &&& g.document.billing.total_minutes == total_minutes(sessions)
    &&& g.document.billing.total_amount_cents == total_amount(sessions, rate)
}

/// Checks a request given the number of days from its start to its end date:
/// the client id must be positive, the end after the start, and the period at
/// most 365 days long.
pub fn check_request(req: &InvoiceRequest, span_days: i64) -> (r: Result<(), InvoiceError>)
    ensures
        match request_error(*req, span_days as int) {
            Some(e) => r == Err::<(), InvoiceError>(e),
            None => r == Ok::<(), InvoiceError>(()),
        },
{
    if req.client_id <= 0 {
        Err(InvoiceError::InvalidClientId)
    } else if !req.start_date.is_before(&req.end_date) {
        Err(InvoiceError::InvalidDateRange)
    } else if span_days > MAX_PERIOD_DAYS {
        Err(InvoiceError::DateRangeTooLong)
    } else {
        Ok(())
    }
}

/// Checks a request before anything is looked up: the client id must be
/// positive, the end date after the start date, and the period at most 365
/// days long.
pub fn validate_invoice_request(req: &InvoiceRequest) -> (r: Result<(), InvoiceError>)
    requires
        req.wf(),
    ensures
        match request_error(*req, request_span(*req)) {
            Some(e) => r == Err::<(), InvoiceError>(e),
            None => r == Ok::<(), InvoiceError>(()),
        },
{
    let span = days_between(&req.start_date, &req.end_date);
    check_request(req, span)
}

/// Generates an invoice from a request, the date of issue and what the stores
/// hold: the billing profile, the client, the highest sequence number stored
/// for the year of issue, and the client's sessions in the requested period.
///
/// The invoice is numbered in the year of issue, bills every session at the
/// client's rate, and falls due 30 days after issue. Nothing is generated
/// where a check fails; the checks run in the order of `generation_error`.
pub fn generate_invoice(
    req: &InvoiceRequest,
    today: &CalendarDate,
    profile: Option<Profile>,
    client: Option<Client>,
    max_existing: Option<u32>,
    sessions: &Vec<SessionEntry>,
) -> (r: Result<GeneratedInvoice, InvoiceError>)
    requires
        req.wf(),
        today.wf(),
    ensures
        match generation_error(
            *req,
            request_span(*req),
            *today,
            profile is Some,
            client,
            max_existing,
            sessions@,
        ) {
            Some(e) => r == Err::<GeneratedInvoice, InvoiceError>(e),
            None => r matches Ok(g) && is_generated_from(
                g,
                *req,
                *today,
                profile->0,
                client->0,
                max_existing,
                sessions@,
            ),
        },
{
    validate_invoice_request(req)?;
    let profile = match profile {
        Some(p) => p,
        None => return Err(InvoiceError::ProfileNotFound),
    };
    let client = match client {
        Some(c) => c,
        None => return Err(InvoiceError::ClientNotFound),
    };
    let sequence = next_sequence_number(today.year, today.year, max_existing)?;
    let billing = aggregate_sessions(sessions, client.hourly_rate_cents)?;
    let number = invoice_number(today.year as u32, sequence);
    let issued = today.to_iso_string();
    let due_date = match add_days(today, PAYMENT_TERM_DAYS) {
        Some(d) => Some(d.to_iso_string()),
        None => None,
    };
    let path = pdf_path(number.as_str());
    let record = NewInvoice {
        invoice_number: number.clone(),
        client_id: req.client_id,
        date: issued.clone(),
        total_amount_cents: billing.total_amount_cents,
        pdf_path: path,
        status: InvoiceStatus::Created,
        due_date,
        year: today.year,
        sequence_number: sequence,
    };
    let document = InvoiceDocument { invoice_number: number, date: issued, profile, client, billing };
    Ok(GeneratedInvoice { document, record })
}

/// Whether `max_existing` is what the store reports as the highest sequence
/// number of `year` among `rows`: nothing where the year has no invoice.
pub open spec fn reports_max_of(max_existing: Option<u32>, rows: Seq<(int, int)>, year: int) -> bool {
    match max_existing {
        None => forall|i: int| 0 <= i < rows.len() ==> (#[trigger] rows[i]).0 != year,
        Some(m) => m as int == max_sequence_in_year(rows, year) && exists|i: int|
            0 <= i < rows.len() && (#[trigger] rows[i]).0 == year,
    }
}

proof fn lemma_no_rows_max_zero(rows: Seq<(int, int)>, year: int)
    requires
        forall|i: int| 0 <= i < rows.len() ==> (#[trigger] rows[i]).0 != year,
    ensures
        max_sequence_in_year(rows, year) == 0,
    decreases rows.len(),
{
    if rows.len() > 0 {
        assert forall|i: int| 0 <= i < rows.drop_last().len() implies (
        #[trigger] rows.drop_last()[i]).0 != year by {
            assert(rows.drop_last()[i] == rows[i]);
        }
        lemma_no_rows_max_zero(rows.drop_last(), year);
        assert(rows[rows.len() - 1].0 != year);
    }
}

/// Invoices generated one after another in a year are numbered 1, 2, 3, ...
/// without gaps: where the store reports the highest sequence number of the
/// stored invoices, the generated invoice takes the next one, which no stored
/// invoice of that year has; once it is stored, the invoice after it takes
/// the number one higher, and its invoice number is "{year}-{sequence:04}".
pub proof fn lemma_generated_sequence_consecutive(
    rows: Seq<(int, int)>,
    year: int,
    max_existing: Option<u32>,
)
    requires
        reports_max_of(max_existing, rows, year),
        year >= 0,
    ensures
        following_sequence(max_existing) == next_sequence_in_year(rows, year),
        forall|i: int|
            0 <= i < rows.len() && (#[trigger] rows[i]).0 == year ==> rows[i].1 != following_sequence(
                max_existing,
            ),
        next_sequence_in_year(rows.push((year, following_sequence(max_existing))), year)
            == following_sequence(max_existing) + 1,
        following_sequence(max_existing) < u32::MAX ==> reports_max_of(
            Some(following_sequence(max_existing) as u32),
            rows.push((year, following_sequence(max_existing))),
            year,
        ),
        invoice_number_text(year, following_sequence(max_existing)) == decimal(year as nat) + seq![
            '-',
        ] + padded(following_sequence(max_existing) as nat, 4),
{
    if max_existing is None {
        lemma_no_rows_max_zero(rows, year);
    }
    lemma_sequence_gap_free(rows, year, year + 1);
    let n = following_sequence(max_existing);
    let pushed = rows.push((year, n));
    assert(pushed[rows.len() as int] == (year, n));
}

} // verus!
