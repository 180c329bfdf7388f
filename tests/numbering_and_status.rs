use vereinsknete::error::{ErrorKind, InvoiceError};
use vereinsknete::lifecycle::{document_path_of, locate_invoice_pdf, plan_deletion, StoredInvoice};
use vereinsknete::numbering::{invoice_number, next_sequence_number, pdf_path};
use vereinsknete::status::{check_update_applied, validate_status_update, InvoiceStatus};

#[test]
fn invoice_numbers_are_padded() {
    assert_eq!(invoice_number(2025, 1), "2025-0001");
    assert_eq!(invoice_number(2025, 42), "2025-0042");
    assert_eq!(invoice_number(2025, 9999), "2025-9999");
    assert_eq!(invoice_number(2025, 12345), "2025-12345");
}

#[test]
fn sequence_starts_at_one() {
    assert_eq!(next_sequence_number(2025, 2025, None), Ok(1));
}

#[test]
fn sequence_follows_the_highest() {
    assert_eq!(next_sequence_number(2025, 2025, Some(1)), Ok(2));
    assert_eq!(next_sequence_number(2025, 2025, Some(41)), Ok(42));
    let mut max = None;
    for expected in 1..=5u32 {
        let next = next_sequence_number(2025, 2025, max).unwrap();
        assert_eq!(next, expected);
        max = Some(next);
    }
}

#[test]
fn sequence_year_is_checked() {
    assert_eq!(next_sequence_number(1999, 2025, None), Err(InvoiceError::InvalidYear));
    assert_eq!(next_sequence_number(2027, 2025, None), Err(InvoiceError::InvalidYear));
    assert_eq!(next_sequence_number(2026, 2025, None), Ok(1));
    assert_eq!(next_sequence_number(2000, 2025, None), Ok(1));
}

#[test]
fn sequence_exhaustion_is_reported() {
    assert_eq!(next_sequence_number(2025, 2025, Some(u32::MAX)), Err(InvoiceError::SequenceExhausted));
}

#[test]
fn document_path_follows_the_number() {
    assert_eq!(pdf_path("2025-0001"), "invoices/invoice_2025-0001.pdf");
}

#[test]
fn every_status_name_is_accepted() {
    let names = ["created", "sent", "paid", "overdue", "cancelled"];
    for name in names {
        let paid_date = Some("2024-01-15".to_string());
        let update = validate_status_update(7, name, paid_date.clone()).unwrap();
        assert_eq!(update.status.as_str(), name);
        assert_eq!(update.invoice_id, 7);
        assert_eq!(update.paid_date, paid_date);
    }
    assert_eq!(InvoiceStatus::parse("overdue"), Some(InvoiceStatus::Overdue));
    assert_eq!(InvoiceStatus::parse("PAID"), None);
    assert_eq!(InvoiceStatus::parse(""), None);
}

#[test]
fn paid_needs_a_date() {
    assert_eq!(validate_status_update(3, "paid", None).unwrap_err(), InvoiceError::PaidDateRequired);
    let ok = validate_status_update(3, "paid", Some("2024-01-15".to_string())).unwrap();
    assert_eq!(ok.status, InvoiceStatus::Paid);
    assert_eq!(ok.paid_date, Some("2024-01-15".to_string()));
}

#[test]
fn any_state_may_follow_any_other() {
    assert!(validate_status_update(3, "paid", Some("2024-01-15".to_string())).is_ok());
    assert!(validate_status_update(3, "created", None).is_ok());
    assert!(validate_status_update(3, "cancelled", None).is_ok());
}

#[test]
fn status_update_rejections() {
    assert_eq!(validate_status_update(0, "sent", None).unwrap_err(), InvoiceError::InvalidInvoiceId);
    assert_eq!(validate_status_update(-1, "weird", None).unwrap_err(), InvoiceError::InvalidInvoiceId);
    assert_eq!(validate_status_update(1, "weird", None).unwrap_err(), InvoiceError::InvalidStatus);
    assert_eq!(check_update_applied(0), Err(InvoiceError::InvoiceNotFound));
    assert_eq!(check_update_applied(1), Ok(()));
}

fn stored() -> StoredInvoice {
    StoredInvoice {
        id: 4,
        invoice_number: "2025-0004".to_string(),
        pdf_path: "invoices/invoice_2025-0004.pdf".to_string(),
    }
}

#[test]
fn deletion_removes_an_existing_document() {
    let inv = stored();
    let plan = plan_deletion(4, Some(&inv), true).unwrap();
    assert_eq!(plan.invoice_id, 4);
    assert_eq!(plan.remove_file, Some("invoices/invoice_2025-0004.pdf".to_string()));
    assert_eq!(document_path_of(&inv), "invoices/invoice_2025-0004.pdf");
}

#[test]
fn deletion_tolerates_a_missing_document() {
    let inv = stored();
    let plan = plan_deletion(4, Some(&inv), false).unwrap();
    assert_eq!(plan.remove_file, None);
}

#[test]
fn deletion_of_unknown_invoice_fails() {
    assert_eq!(plan_deletion(9, None, true).unwrap_err(), InvoiceError::InvoiceNotFound);
}

#[test]
fn document_retrieval_outcomes() {
    let inv = stored();
    assert_eq!(locate_invoice_pdf(0, Some(&inv), true), Err(InvoiceError::InvalidInvoiceId));
    assert_eq!(locate_invoice_pdf(4, None, true), Err(InvoiceError::InvoiceNotFound));
    assert_eq!(locate_invoice_pdf(4, Some(&inv), false), Err(InvoiceError::PdfFileNotFound));
    assert_eq!(locate_invoice_pdf(4, Some(&inv), true), Ok("invoices/invoice_2025-0004.pdf".to_string()));
}

#[test]
fn error_kinds() {
    assert_eq!(InvoiceError::NoSessions.kind(), ErrorKind::NotFound);
    assert_eq!(InvoiceError::InvalidHourlyRate.kind(), ErrorKind::BusinessRule);
    assert_eq!(InvoiceError::DateRangeTooLong.kind(), ErrorKind::BusinessRule);
    assert_eq!(InvoiceError::InvalidStatus.kind(), ErrorKind::Validation);
    assert_eq!(InvoiceError::PdfFileNotFound.message(), "PDF file not found");
}
