//! The lifecycle states of an invoice and the rules for changing them.

use vstd::prelude::*;
use crate::error::InvoiceError;
use crate::text::{lowercase_of, str_eq, to_lowercase, trim, trimmed_of};

verus! {

/// The state of an invoice. Any state may follow any other; only `Paid`
/// needs a paid date.
#[derive(Clone, Copy, Debug, PartialEq, Eq, Structural)]
pub enum InvoiceStatus {
    Created,
    Sent,
    Paid,
    Overdue,
    Cancelled,
}

/// The state named by a text, where the text is one of the five names.
pub open spec fn status_from_text(s: Seq<char>) -> Option<InvoiceStatus> {
    if s == "created"@ {
        Some(InvoiceStatus::Created)
    } else if s == "sent"@ {
        Some(InvoiceStatus::Sent)
    } else if s == "paid"@ {
        Some(InvoiceStatus::Paid)
    } else if s == "overdue"@ {
        Some(InvoiceStatus::Overdue)
    } else if s == "cancelled"@ {
        Some(InvoiceStatus::Cancelled)
    } else {
        None
    }
}

/// The stored name of a state.
pub open spec fn status_text(s: InvoiceStatus) -> Seq<char> {
    match s {
        InvoiceStatus::Created => "created"@,
        InvoiceStatus::Sent => "sent"@,
        InvoiceStatus::Paid => "paid"@,
        InvoiceStatus::Overdue => "overdue"@,
        InvoiceStatus::Cancelled => "cancelled"@,
    }
}

impl InvoiceStatus {
    /// Reads a state from its stored name.
    pub fn parse(s: &str) -> (r: Option<InvoiceStatus>)
        ensures
            r == status_from_text(s@),
    {
        if str_eq(s, "created") {
            Some(InvoiceStatus::Created)
        } else if str_eq(s, "sent") {
            Some(InvoiceStatus::Sent)
        } else if str_eq(s, "paid") {
            Some(InvoiceStatus::Paid)
        } else if str_eq(s, "overdue") {
            Some(InvoiceStatus::Overdue)
        } else if str_eq(s, "cancelled") {
            Some(InvoiceStatus::Cancelled)
        } else {
            None
        }
    }

    /// The stored name of the state.
    pub fn as_str(&self) -> (r: &'static str)
        ensures
            r@ == status_text(*self),
    {
        match self {
            InvoiceStatus::Created => "created",
            InvoiceStatus::Sent => "sent",
            InvoiceStatus::Paid => "paid",
            InvoiceStatus::Overdue => "overdue",
            InvoiceStatus::Cancelled => "cancelled",
        }
    }
}

/// Every state reads back from its stored name.
pub proof fn lemma_status_text_round_trip(s: InvoiceStatus)
    ensures
        status_from_text(status_text(s)) == Some(s),
{
    reveal_strlit("created");
    reveal_strlit("sent");
    reveal_strlit("paid");
    reveal_strlit("overdue");
    reveal_strlit("cancelled");
    assert("created"@.len() == 7 && "created"@[0] == 'c');
    assert("sent"@.len() == 4 && "sent"@[0] == 's');
    assert("paid"@.len() == 4 && "paid"@[0] == 'p');
    assert("overdue"@.len() == 7 && "overdue"@[0] == 'o');
    assert("cancelled"@.len() == 9);
}

/// A validated change of an invoice's state, ready to be stored.
#[derive(Clone, Debug)]
pub struct StatusUpdate {
    pub invoice_id: i32,
    pub status: InvoiceStatus,
    /// Stored as given, for every state.
    pub paid_date: Option<String>,
}

/// The first rule that a requested state change breaks, if any.
pub open spec fn status_update_error(invoice_id: int, status: Seq<char>, has_paid_date: bool) -> Option<
    InvoiceError,
> {
    if invoice_id <= 0 {
        Some(InvoiceError::InvalidInvoiceId)
    } else if status_from_text(status) is None {
        Some(InvoiceError::InvalidStatus)
    } else if status_from_text(status) == Some(InvoiceStatus::Paid) && !has_paid_date {
        Some(InvoiceError::PaidDateRequired)
    } else {
        None
    }
}

/// Checks a requested state change: the id must be positive, the state one of
/// the five names, and a paid date must come with `paid`.
pub fn validate_status_update(invoice_id: i32, status: &str, paid_date: Option<String>) -> (r:
    Result<StatusUpdate, InvoiceError>)
    ensures
        match status_update_error(invoice_id as int, status@, paid_date is Some) {
            Some(e) => r == Err::<StatusUpdate, InvoiceError>(e),
            None => r matches Ok(u) && u.invoice_id == invoice_id && Some(u.status)
                == status_from_text(status@) && u.paid_date == paid_date,
        },
{
    if invoice_id <= 0 {
        return Err(InvoiceError::InvalidInvoiceId);
    }
    let parsed = InvoiceStatus::parse(status);
    match parsed {
        None => Err(InvoiceError::InvalidStatus),
        Some(st) => {
            if st == InvoiceStatus::Paid && paid_date.is_none() {
                Err(InvoiceError::PaidDateRequired)
            } else {
                Ok(StatusUpdate { invoice_id, status: st, paid_date })
            }
        },
    }
}

/// A request to change an invoice's state, as it arrives.
#[derive(Clone, Debug)]
pub struct UpdateInvoiceStatusRequest {
    pub status: String,
    pub paid_date: Option<String>,
}

/// The first field rule that a state name breaks: 1 to 20 characters long,
/// and one of the five names.
pub open spec fn status_field_error(status: Seq<char>) -> Option<InvoiceError> {
    if !(1 <= status.len() <= 20) || status_from_text(status) is None {
        Some(InvoiceError::InvalidStatus)
    } else {
        None
    }
}

impl UpdateInvoiceStatusRequest {
    /// Checks the length of the state name as it stands: 1 to 20 characters.
    pub fn validate(&self) -> (r: Result<(), InvoiceError>)
        ensures
            r is Ok <==> 1 <= self.status@.len() <= 20,
            r is Err ==> r == Err::<(), InvoiceError>(InvoiceError::InvalidStatus),
    {
        let n = self.status.as_str().unicode_len();
        if n < 1 || n > 20 {
            Err(InvoiceError::InvalidStatus)
        } else {
            Ok(())
        }
    }

    /// Trims the state name and puts it in lower case, then checks that it is
    /// 1 to 20 characters long and one of the five names.
    pub fn validate_and_sanitize(&mut self) -> (r: Result<(), InvoiceError>)
        ensures
            final(self).status@ == lowercase_of(trimmed_of(old(self).status@)),
            final(self).paid_date == old(self).paid_date,
            match status_field_error(final(self).status@) {
                Some(e) => r == Err::<(), InvoiceError>(e),
                None => r == Ok::<(), InvoiceError>(()),
            },
    {
        self.status = to_lowercase(trim(self.status.as_str()));
        self.validate()?;
        match InvoiceStatus::parse(self.status.as_str()) {
            Some(_) => Ok(()),
            None => Err(InvoiceError::InvalidStatus),
        }
    }
}

/// Interprets the number of rows that a stored state change touched: none
/// means that the invoice does not exist.
pub fn check_update_applied(rows_affected: usize) -> (r: Result<(), InvoiceError>)
    ensures
        rows_affected == 0 ==> r == Err::<(), InvoiceError>(InvoiceError::InvoiceNotFound),
        rows_affected > 0 ==> r == Ok::<(), InvoiceError>(()),
{
    if rows_affected == 0 {
        Err(InvoiceError::InvoiceNotFound)
    } else {
        Ok(())
    }
}

} // verus!
