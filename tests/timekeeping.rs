use vereinsknete::billing::{aggregate_sessions, line_amount_cents, line_item, SessionEntry};
use vereinsknete::calendar::{add_days, days_between, dotted_date_string, leap_year, CalendarDate};
use vereinsknete::clock::{duration_minutes, minute_of_day, parse_minute_of_day, session_duration_minutes};
use vereinsknete::error::InvoiceError;

fn entry(start: &str, end: &str) -> SessionEntry {
    SessionEntry {
        name: "Consulting".to_string(),
        date: "2025-01-10".to_string(),
        start_time: start.to_string(),
        end_time: end.to_string(),
    }
}

#[test]
fn duration_of_a_day_session() {
    // 09:00 to 17:30 is 8.5 hours.
    assert_eq!(session_duration_minutes("09:00", "17:30"), 510);
}

#[test]
fn duration_past_midnight() {
    // 23:00 to 01:00 is 2.0 hours.
    assert_eq!(session_duration_minutes("23:00", "01:00"), 120);
    assert_eq!(duration_minutes(23 * 60, 60), 120);
}

#[test]
fn duration_of_equal_times_is_zero() {
    assert_eq!(session_duration_minutes("10:00", "10:00"), 0);
}

#[test]
fn unreadable_time_counts_as_midnight() {
    assert_eq!(parse_minute_of_day("later"), 0);
    assert_eq!(parse_minute_of_day("24:00"), 0);
    assert_eq!(session_duration_minutes("xx", "01:00"), 60);
}

#[test]
fn clock_text_is_read() {
    assert_eq!(parse_minute_of_day("17:30"), 1050);
    assert_eq!(parse_minute_of_day("00:59"), 59);
    assert_eq!(minute_of_day(Some((23, 59))), 1439);
    assert_eq!(minute_of_day(None), 0);
}

#[test]
fn line_amount_rounds_to_the_cent() {
    assert_eq!(line_amount_cents(60, 10000), 10000);
    assert_eq!(line_amount_cents(20, 100), 33);
    assert_eq!(line_amount_cents(1, 30), 1);
    assert_eq!(line_amount_cents(0, 10000), 0);
}

#[test]
fn line_item_copies_the_session() {
    let item = line_item(&entry("09:00", "10:30"), 6000);
    assert_eq!(item.name, "Consulting");
    assert_eq!(item.date, "2025-01-10");
    assert_eq!(item.start_time, "09:00");
    assert_eq!(item.end_time, "10:30");
    assert_eq!(item.duration_minutes, 90);
    assert_eq!(item.amount_cents, 9000);
}

#[test]
fn totals_of_three_hours_at_one_hundred() {
    let sessions = vec![entry("09:00", "11:00"), entry("10:00", "11:00")];
    let billing = aggregate_sessions(&sessions, 10000).unwrap();
    assert_eq!(billing.total_minutes, 180);
    assert_eq!(billing.total_amount_cents, 30000);
    assert_eq!(billing.items.len(), 2);
    assert_eq!(billing.items[0].amount_cents, 20000);
    assert_eq!(billing.items[1].amount_cents, 10000);
}

#[test]
fn aggregation_rejects_empty_input() {
    assert_eq!(aggregate_sessions(&vec![], 10000).unwrap_err(), InvoiceError::NoSessions);
    assert_eq!(aggregate_sessions(&vec![], 0).unwrap_err(), InvoiceError::NoSessions);
}

#[test]
fn aggregation_rejects_non_positive_rates() {
    let sessions = vec![entry("09:00", "11:00")];
    assert_eq!(aggregate_sessions(&sessions, 0).unwrap_err(), InvoiceError::InvalidHourlyRate);
    assert_eq!(aggregate_sessions(&sessions, -500).unwrap_err(), InvoiceError::InvalidHourlyRate);
}

#[test]
fn aggregation_rejects_zero_amount() {
    let sessions = vec![entry("10:00", "10:00")];
    assert_eq!(aggregate_sessions(&sessions, 10000).unwrap_err(), InvoiceError::ZeroAmount);
}

#[test]
fn calendar_dates_are_checked() {
    assert!(CalendarDate::new(2025, 2, 29).is_none());
    assert!(CalendarDate::new(2024, 2, 29).is_some());
    assert!(CalendarDate::new(1900, 2, 29).is_none());
    assert!(CalendarDate::new(2000, 2, 29).is_some());
    assert!(CalendarDate::new(2025, 13, 1).is_none());
    assert!(CalendarDate::new(2025, 4, 31).is_none());
    assert!(CalendarDate::new(2025, 1, 0).is_none());
    assert!(leap_year(2024));
    assert!(!leap_year(2100));
    assert!(leap_year(-4));
}

#[test]
fn calendar_order_and_spans() {
    let a = CalendarDate::new(2025, 1, 1).unwrap();
    let b = CalendarDate::new(2025, 12, 31).unwrap();
    assert!(a.is_before(&b));
    assert!(!b.is_before(&a));
    assert!(!a.is_before(&a));
    assert_eq!(days_between(&a, &b), 364);
    assert_eq!(days_between(&b, &a), -364);
    let c = CalendarDate::new(2024, 1, 1).unwrap();
    assert_eq!(days_between(&c, &a), 366);
}

#[test]
fn calendar_adds_days() {
    let a = CalendarDate::new(2025, 1, 15).unwrap();
    assert_eq!(add_days(&a, 30), CalendarDate::new(2025, 2, 14));
    let b = CalendarDate::new(2024, 12, 15).unwrap();
    assert_eq!(add_days(&b, 30), CalendarDate::new(2025, 1, 14));
    let last = CalendarDate::new(262142, 12, 31).unwrap();
    assert_eq!(add_days(&last, 1), None);
}

#[test]
fn calendar_writes_dates() {
    assert_eq!(CalendarDate::new(2025, 3, 7).unwrap().to_iso_string(), "2025-03-07");
    assert_eq!(CalendarDate::new(12, 3, 7).unwrap().to_iso_string(), "0012-03-07");
    assert_eq!(CalendarDate::new(12345, 3, 7).unwrap().to_iso_string(), "+12345-03-07");
    assert_eq!(CalendarDate::new(-5, 3, 7).unwrap().to_iso_string(), "-0005-03-07");
    assert_eq!(dotted_date_string(2025, 3, 7), "07.03.2025");
}

#[test]
fn calendar_reads_iso_dates() {
    assert_eq!(CalendarDate::parse_iso("2025-01-31"), CalendarDate::new(2025, 1, 31));
    assert_eq!(CalendarDate::parse_iso("2024-02-29"), CalendarDate::new(2024, 2, 29));
    assert_eq!(CalendarDate::parse_iso("2025-02-29"), None);
    assert_eq!(CalendarDate::parse_iso("31.01.2025"), None);
    assert_eq!(CalendarDate::parse_iso(""), None);
}
