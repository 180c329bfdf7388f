use vereinsknete::dashboard::{
    compute_metrics, get_dashboard_metrics, metrics_window, DashboardQuery, InvoiceSummaryRow, Period,
};
use vereinsknete::error::InvoiceError;

fn row(status: &str, date: &str, cents: u64) -> InvoiceSummaryRow {
    InvoiceSummaryRow { status: status.to_string(), date: date.to_string(), total_amount_cents: cents }
}

fn query(period: &str, year: i32, month: Option<i32>) -> DashboardQuery {
    DashboardQuery { period: period.to_string(), year, month }
}

fn rows() -> Vec<InvoiceSummaryRow> {
    vec![
        row("paid", "2025-01-15", 1000),
        row("paid", "2025-02-01", 2000),
        row("sent", "2024-05-05", 500),
        row("sent", "2025-01-20", 700),
        row("created", "2025-01-10", 50),
        row("paid", "2024-12-31", 4000),
    ]
}

#[test]
fn revenue_is_windowed_and_pending_is_not() {
    let m = get_dashboard_metrics(&query("month", 2025, Some(1)), 2025, 6, &rows()).unwrap();
    assert_eq!(m.total_revenue_period_cents, 1000);
    assert_eq!(m.pending_invoices_amount_cents, 1200);
    assert_eq!(m.total_invoices_count, 6);
    assert_eq!(m.paid_invoices_count, 3);
    assert_eq!(m.pending_invoices_count, 2);
}

#[test]
fn year_and_quarter_revenue() {
    let y = get_dashboard_metrics(&query("year", 2025, None), 2025, 6, &rows()).unwrap();
    assert_eq!(y.total_revenue_period_cents, 3000);
    let q = get_dashboard_metrics(&query("quarter", 2024, Some(11)), 2025, 6, &rows()).unwrap();
    assert_eq!(q.total_revenue_period_cents, 4000);
}

#[test]
fn windows_of_periods() {
    let w = metrics_window(&query("month", 2025, Some(1)), 2025, 6).unwrap();
    assert_eq!(w, ("2025-01-01".to_string(), "2025-02-01".to_string()));
    let w = metrics_window(&query("month", 2025, Some(12)), 2025, 6).unwrap();
    assert_eq!(w, ("2025-12-01".to_string(), "2026-01-01".to_string()));
    let w = metrics_window(&query("quarter", 2025, Some(5)), 2025, 6).unwrap();
    assert_eq!(w, ("2025-04-01".to_string(), "2025-07-01".to_string()));
    let w = metrics_window(&query("quarter", 2025, Some(11)), 2025, 6).unwrap();
    assert_eq!(w, ("2025-10-01".to_string(), "2026-01-01".to_string()));
    let w = metrics_window(&query("year", 2025, None), 2025, 6).unwrap();
    assert_eq!(w, ("2025-01-01".to_string(), "2026-01-01".to_string()));
}

#[test]
fn current_month_picks_the_window() {
    let w = metrics_window(&query("month", 2025, None), 2025, 3).unwrap();
    assert_eq!(w, ("2025-03-01".to_string(), "2025-04-01".to_string()));
    let w = metrics_window(&query("quarter", 2025, None), 2025, 8).unwrap();
    assert_eq!(w, ("2025-07-01".to_string(), "2025-10-01".to_string()));
}

#[test]
fn dashboard_query_rejections() {
    assert_eq!(metrics_window(&query("month", 1999, Some(1)), 2025, 6), Err(InvoiceError::InvalidYear));
    assert_eq!(metrics_window(&query("month", 2027, Some(1)), 2025, 6), Err(InvoiceError::InvalidYear));
    assert_eq!(metrics_window(&query("month", 2025, Some(13)), 2025, 6), Err(InvoiceError::InvalidMonth));
    assert_eq!(metrics_window(&query("month", 2025, Some(0)), 2025, 6), Err(InvoiceError::InvalidMonth));
    assert_eq!(metrics_window(&query("week", 2025, None), 2025, 6), Err(InvoiceError::InvalidPeriod));
    assert_eq!(metrics_window(&query("", 2025, None), 2025, 6), Err(InvoiceError::InvalidPeriod));
    assert!(metrics_window(&query("year", 2026, None), 2025, 6).is_ok());
}

#[test]
fn figures_of_no_invoices() {
    let m = compute_metrics(&vec![], "2025-01-01", "2026-01-01");
    assert_eq!(m.total_revenue_period_cents, 0);
    assert_eq!(m.pending_invoices_amount_cents, 0);
    assert_eq!(m.total_invoices_count, 0);
}

#[test]
fn window_bounds_are_half_open() {
    let r = vec![row("paid", "2025-01-01", 1), row("paid", "2025-02-01", 10), row("paid", "2025-01-31", 100)];
    let m = compute_metrics(&r, "2025-01-01", "2025-02-01");
    assert_eq!(m.total_revenue_period_cents, 101);
}

#[test]
fn periods_are_read_by_name() {
    assert_eq!(Period::parse("month"), Some(Period::Month));
    assert_eq!(Period::parse("quarter"), Some(Period::Quarter));
    assert_eq!(Period::parse("year"), Some(Period::Year));
    assert_eq!(Period::parse("Month"), None);
}
