use vereinsknete::billing::SessionEntry;
use vereinsknete::calendar::CalendarDate;
use vereinsknete::dashboard::{get_dashboard_metrics, DashboardQuery, InvoiceSummaryRow};
use vereinsknete::generation::{generate_invoice, Client, GeneratedInvoice, InvoiceRequest, Profile};
use vereinsknete::error::InvoiceError;
use vereinsknete::status::{check_update_applied, validate_status_update, InvoiceStatus};

fn date(y: i32, m: u32, d: u32) -> CalendarDate {
    CalendarDate::new(y, m, d).unwrap()
}

fn today() -> CalendarDate {
    date(2025, 6, 15)
}

fn profile() -> Profile {
    Profile {
        name: "Freelancer".to_string(),
        address: "Street 1\n12345 City".to_string(),
        tax_id: Some("DE123".to_string()),
        bank_details: Some("IBAN DE00\nRef {invoice_number}".to_string()),
    }
}

fn client(rate_cents: i32) -> Client {
    Client {
        id: 1,
        name: "Acme".to_string(),
        address: "Road 2".to_string(),
        contact_person: None,
        hourly_rate_cents: rate_cents,
    }
}

fn session(day: &str, start: &str, end: &str) -> SessionEntry {
    SessionEntry {
        name: "Work".to_string(),
        date: day.to_string(),
        start_time: start.to_string(),
        end_time: end.to_string(),
    }
}

fn request(client_id: i32, start: CalendarDate, end: CalendarDate) -> InvoiceRequest {
    InvoiceRequest { client_id, start_date: start, end_date: end, language: None }
}

fn generate(
    req: &InvoiceRequest,
    rate_cents: i32,
    max_existing: Option<u32>,
    sessions: &Vec<SessionEntry>,
) -> Result<GeneratedInvoice, InvoiceError> {
    generate_invoice(req, &today(), Some(profile()), Some(client(rate_cents)), max_existing, sessions)
}

#[test]
fn generate_invoice_success_and_sequence() {
    let mut sessions = vec![session("2025-01-10", "09:00", "11:00")];
    let req = request(1, date(2025, 1, 1), date(2025, 1, 31));
    let first = generate(&req, 10000, None, &sessions).unwrap();
    assert!(first.record.invoice_number.ends_with("0001"));
    assert_eq!(first.record.total_amount_cents, 20000);
    sessions.push(session("2025-01-15", "10:00", "11:00"));
    let req2 = request(1, date(2025, 1, 1), date(2025, 12, 31));
    let stored_max = Some(first.record.sequence_number);
    let second = generate(&req2, 10000, stored_max, &sessions).unwrap();
    assert!(second.record.invoice_number.ends_with("0002"));
    assert_eq!(second.record.sequence_number, 2);
}

#[test]
fn generate_invoice_no_sessions_fails() {
    let req = request(1, date(2025, 2, 1), date(2025, 2, 28));
    let err = generate(&req, 10000, None, &vec![]).unwrap_err();
    assert_eq!(err, InvoiceError::NoSessions);
    assert!(err.message().contains("No sessions"));
}

#[test]
fn generate_invoice_invalid_date_range_fails() {
    let req = request(1, date(2025, 3, 10), date(2025, 3, 1));
    let err = generate(&req, 10000, None, &vec![]).unwrap_err();
    assert_eq!(err, InvoiceError::InvalidDateRange);
    assert!(err.message().contains("End date must be after start date"));
}

#[test]
fn generate_invoice_invalid_rate_fails() {
    let sessions = vec![session("2025-01-10", "09:00", "10:00")];
    let req = request(1, date(2025, 1, 1), date(2025, 1, 31));
    let err = generate(&req, 0, None, &sessions).unwrap_err();
    assert_eq!(err, InvoiceError::InvalidHourlyRate);
    assert!(err.message().contains("invalid hourly rate"));
}

#[test]
fn update_invoice_status_flow_and_validation() {
    let sessions = vec![session("2025-01-10", "09:00", "11:00")];
    let req = request(1, date(2025, 1, 1), date(2025, 1, 31));
    let generated = generate(&req, 10000, None, &sessions).unwrap();
    assert_eq!(generated.record.status, InvoiceStatus::Created);
    let id = 1;
    let bad = validate_status_update(id, "weird", None).unwrap_err();
    assert!(bad.message().contains("Invalid status"));
    let bad2 = validate_status_update(id, "paid", None).unwrap_err();
    assert!(bad2.message().contains("Paid date is required"));
    let sent = validate_status_update(id, "sent", None).unwrap();
    assert_eq!(sent.status, InvoiceStatus::Sent);
    assert_eq!(check_update_applied(1), Ok(()));
    let paid = validate_status_update(id, "paid", Some("2025-06-15".to_string())).unwrap();
    assert_eq!(paid.status, InvoiceStatus::Paid);
    assert_eq!(paid.paid_date, Some("2025-06-15".to_string()));
    assert_eq!(check_update_applied(1), Ok(()));
}

#[test]
fn dashboard_metrics_basic() {
    let sessions = vec![session("2025-01-10", "09:00", "10:00")];
    let req = request(1, date(2025, 1, 1), date(2025, 1, 31));
    let generated = generate(&req, 10000, None, &sessions).unwrap();
    let amount = generated.record.total_amount_cents as u64;
    let rows = vec![InvoiceSummaryRow {
        status: "paid".to_string(),
        date: generated.record.date.clone(),
        total_amount_cents: amount,
    }];
    let query = DashboardQuery { period: "year".to_string(), year: 2025, month: None };
    let metrics = get_dashboard_metrics(&query, 2025, 6, &rows).unwrap();
    assert!(metrics.total_revenue_period_cents >= 10000);
    assert!(metrics.total_invoices_count >= 1);
}
