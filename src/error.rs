//! The failures that the invoicing operations report.

use vstd::prelude::*;

verus! {

/// Why an invoicing operation was refused.
#[derive(Clone, Copy, Debug, PartialEq, Eq, Structural)]
pub enum InvoiceError {
    /// The client id is not positive.
    InvalidClientId,
    /// The language code is not 2 to 5 characters long.
    InvalidLanguage,
    /// The end date is not after the start date.
    InvalidDateRange,
    /// The billed period spans more than 365 days.
    DateRangeTooLong,
    /// No billing profile exists.
    ProfileNotFound,
    /// The client does not exist.
    ClientNotFound,
    /// The year is outside the years that invoices can be numbered in.
    InvalidYear,
    /// The sequence numbers of the year are used up.
    SequenceExhausted,
    /// No session of the client lies in the period.
    NoSessions,
    /// The client's hourly rate is not positive.
    InvalidHourlyRate,
    /// The invoice would not amount to anything.
    ZeroAmount,
    /// The invoice id is not positive.
    InvalidInvoiceId,
    /// The status is not one of the five invoice states.
    InvalidStatus,
    /// A paid date is needed to mark an invoice as paid.
    PaidDateRequired,
    /// No invoice has the given id.
    InvoiceNotFound,
    /// The stored invoice's document is missing.
    PdfFileNotFound,
    /// The month is outside 1 to 12.
    InvalidMonth,
    /// The period is not one of month, quarter and year.
    InvalidPeriod,
    /// The period "month" was asked for without a month.
    MonthRequired,
}

/// Whether the failure is a rejected input, a missing record, or a business rule.
#[derive(Clone, Copy, Debug, PartialEq, Eq, Structural)]
pub enum ErrorKind {
    Validation,
    NotFound,
    BusinessRule,
}

pub open spec fn kind_of(e: InvoiceError) -> ErrorKind {
    match e {
        InvoiceError::ProfileNotFound | InvoiceError::ClientNotFound | InvoiceError::NoSessions
        | InvoiceError::InvoiceNotFound | InvoiceError::PdfFileNotFound => ErrorKind::NotFound,
        InvoiceError::DateRangeTooLong | InvoiceError::InvalidHourlyRate | InvoiceError::ZeroAmount
        | InvoiceError::SequenceExhausted => ErrorKind::BusinessRule,
        _ => ErrorKind::Validation,
    }
}

/// The HTTP status that reports a failure: 400 for rejected input, 404 for a
/// missing record, 422 for a broken business rule.
pub open spec fn http_status_of(e: InvoiceError) -> u16 {
    match kind_of(e) {
        ErrorKind::Validation => 400,
        ErrorKind::NotFound => 404,
        ErrorKind::BusinessRule => 422,
    }
}

impl InvoiceError {
    /// The HTTP status that reports the failure.
    pub fn http_status(&self) -> (r: u16)
        ensures
            r == http_status_of(*self),
    {
        match self.kind() {
            ErrorKind::Validation => 400,
            ErrorKind::NotFound => 404,
            ErrorKind::BusinessRule => 422,
        }
    }

    /// The class of the failure.
    pub fn kind(&self) -> (r: ErrorKind)
        ensures
            r == kind_of(*self),
    {
        match self {
            InvoiceError::ProfileNotFound | InvoiceError::ClientNotFound
            | InvoiceError::NoSessions | InvoiceError::InvoiceNotFound
            | InvoiceError::PdfFileNotFound => ErrorKind::NotFound,
            InvoiceError::DateRangeTooLong | InvoiceError::InvalidHourlyRate
            | InvoiceError::ZeroAmount | InvoiceError::SequenceExhausted => ErrorKind::BusinessRule,
            _ => ErrorKind::Validation,
        }
    }

    /// A message for the user.
    pub fn message(&self) -> (r: &'static str)
        ensures
            r@.len() > 0,
    {
        let m = match self {
            InvoiceError::InvalidClientId => "Invalid client ID",
            InvoiceError::InvalidLanguage => "Language must be 2-5 characters (e.g., 'en', 'de')",
            InvoiceError::InvalidDateRange => "End date must be after start date",
            InvoiceError::DateRangeTooLong => "Date range cannot exceed 1 year",
            InvoiceError::ProfileNotFound => "User profile not found - please create a user profile first",
            InvoiceError::ClientNotFound => "Client not found",
            InvoiceError::InvalidYear => "Invalid year for invoice generation",
            InvoiceError::SequenceExhausted => "No invoice number left for this year",
            InvoiceError::NoSessions => "No sessions found in the specified date range",
            InvoiceError::InvalidHourlyRate => "Client has invalid hourly rate",
            InvoiceError::ZeroAmount => "Invoice amount must be positive",
            InvoiceError::InvalidInvoiceId => "Invalid invoice ID",
            InvoiceError::InvalidStatus => "Invalid status. Must be one of: created, sent, paid, overdue, cancelled",
            InvoiceError::PaidDateRequired => "Paid date is required when marking invoice as paid",
            InvoiceError::InvoiceNotFound => "Invoice not found",
            InvoiceError::PdfFileNotFound => "PDF file not found",
            InvoiceError::InvalidMonth => "Invalid month",
            InvoiceError::InvalidPeriod => "Invalid period. Use 'month', 'quarter', or 'year'",
            InvoiceError::MonthRequired => "Month is required when period is 'month'",
        };
        proof {
            reveal_strlit("Invalid client ID");
            reveal_strlit("Language must be 2-5 characters (e.g., 'en', 'de')");
            reveal_strlit("End date must be after start date");
            reveal_strlit("Date range cannot exceed 1 year");
            reveal_strlit("User profile not found - please create a user profile first");
            reveal_strlit("Client not found");
            reveal_strlit("Invalid year for invoice generation");
            reveal_strlit("No invoice number left for this year");
            reveal_strlit("No sessions found in the specified date range");
            reveal_strlit("Client has invalid hourly rate");
            reveal_strlit("Invoice amount must be positive");
            reveal_strlit("Invalid invoice ID");
            reveal_strlit("Invalid status. Must be one of: created, sent, paid, overdue, cancelled");
            reveal_strlit("Paid date is required when marking invoice as paid");
            reveal_strlit("Invoice not found");
            reveal_strlit("PDF file not found");
            reveal_strlit("Invalid month");
            reveal_strlit("Invalid period. Use 'month', 'quarter', or 'year'");
            reveal_strlit("Month is required when period is 'month'");
        }
        m
    }
}

} // verus!
