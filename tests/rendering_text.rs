use vereinsknete::billing::LineItem;
use vereinsknete::config::Config;
use vereinsknete::document::{
    format_amount, format_date_for_language, format_hours, invoice_title, line_item_cells, payment_detail_lines, render_date,
    replace_all_occurrences, replace_placeholders, split_lines,
};
use vereinsknete::health::{overall_healthy, CheckResult, HealthStatus};
use vereinsknete::i18n::{get_translations, translate, translations, Language};

#[test]
fn placeholder_is_filled() {
    assert_eq!(
        replace_placeholders("Ref: {invoice_number}", "2025-0001"),
        "Ref: 2025-0001"
    );
    assert_eq!(
        replace_placeholders("{invoice_number}/{invoice_number}", "7"),
        "7/7"
    );
    assert_eq!(replace_placeholders("no token {invoice}", "7"), "no token {invoice}");
    assert_eq!(replace_placeholders("", "7"), "");
}

#[test]
fn replacement_reads_left_to_right() {
    assert_eq!(replace_all_occurrences("aaa", "aa", "b"), "ba");
    assert_eq!(replace_all_occurrences("abc", "", "x"), "abc");
}

#[test]
fn lines_are_split_at_newlines() {
    assert_eq!(split_lines("a\nb"), vec!["a".to_string(), "b".to_string()]);
    assert_eq!(split_lines("a\n"), vec!["a".to_string(), "".to_string()]);
    assert_eq!(split_lines(""), vec!["".to_string()]);
    assert_eq!(split_lines("one"), vec!["one".to_string()]);
}

#[test]
fn payment_lines_with_details() {
    let lines = payment_detail_lines(Some("IBAN DE00\nRef {invoice_number}"), "2025-0003", Language::English);
    assert_eq!(lines, vec!["IBAN DE00".to_string(), "Ref 2025-0003".to_string()]);
}

#[test]
fn payment_lines_without_details() {
    let de = payment_detail_lines(None, "2025-0003", Language::German);
    assert_eq!(de, vec!["Bitte kontaktieren Sie uns für Zahlungsdetails.".to_string()]);
    let en = payment_detail_lines(None, "2025-0003", Language::English);
    assert_eq!(en, vec!["Please contact for payment details.".to_string()]);
}

#[test]
fn dates_follow_the_language() {
    assert_eq!(format_date_for_language("2025-01-15", Language::German), "15.01.2025");
    assert_eq!(format_date_for_language("2025-01-15", Language::English), "2025-01-15");
    assert_eq!(format_date_for_language("2025-1-5", Language::English), "2025-01-05");
    assert_eq!(format_date_for_language("someday", Language::German), "someday");
    assert_eq!(format_date_for_language("2025-02-30", Language::German), "2025-02-30");
    assert_eq!(render_date(Some((2024, 2, 29)), Language::German, "x"), "29.02.2024");
    assert_eq!(render_date(None, Language::German, "x"), "x");
}

#[test]
fn languages_are_read_from_codes() {
    assert_eq!(Language::parse_lang("en"), Language::English);
    assert_eq!(Language::parse_lang("EN"), Language::English);
    assert_eq!(Language::parse_lang("de"), Language::German);
    assert_eq!(Language::parse_lang("fr"), Language::German);
    assert_eq!(Language::parse_lang(""), Language::German);
    assert_eq!(Language::from_option(None), Language::German);
    assert_eq!(Language::from_option(Some("En")), Language::English);
    assert_eq!(Language::default(), Language::German);
    assert_eq!("EN".parse::<Language>(), Ok(Language::English));
    assert_eq!("xx".parse::<Language>(), Ok(Language::German));
}

#[test]
fn labels_are_looked_up() {
    assert_eq!(translate(Language::English, "invoice", "invoice"), "INVOICE");
    assert_eq!(translate(Language::German, "invoice", "invoice"), "RECHNUNG");
    assert_eq!(translate(Language::German, "invoice", "total_amount"), "Gesamtbetrag");
    assert_eq!(translate(Language::English, "invoice", "nope"), "TRANSLATION_MISSING");
    assert_eq!(translate(Language::English, "other", "date"), "Date");
    let table = get_translations(Language::English, "invoice");
    assert_eq!(table.entries.len(), 15);
    assert_eq!(table.get("tax_id"), Some("Tax ID"));
    let de = translations::get_translations(Language::German, "invoice");
    assert_eq!(de.get("to"), Some("AN"));
}

#[test]
fn title_carries_the_number() {
    assert_eq!(invoice_title(Language::German, "2025-0001"), "RECHNUNG #2025-0001");
    assert_eq!(invoice_title(Language::English, "2025-0001"), "INVOICE #2025-0001");
}

fn config(env_mode: &str, static_dir: Option<&str>) -> Config {
    Config::from_args(
        "vereinsknete.db".to_string(),
        8080,
        "0.0.0.0".to_string(),
        static_dir.map(|s| s.to_string()),
        "invoices".to_string(),
        "info".to_string(),
        env_mode.to_string(),
    )
}

#[test]
fn production_mode_names() {
    assert!(config("prod", None).is_production());
    assert!(config("PROD", None).is_production());
    assert!(config("Production", None).is_production());
    assert!(!config("dev", None).is_production());
    assert!(!config("prod ", None).is_production());
}

#[test]
fn static_files_and_address() {
    let c = config("dev", Some("/srv/static"));
    assert!(c.should_serve_static_files(true));
    assert!(!c.should_serve_static_files(false));
    assert!(!config("dev", None).should_serve_static_files(true));
    assert_eq!(c.get_static_dir(), Some(&"/srv/static".to_string()));
    assert_eq!(c.get_bind_address(), ("0.0.0.0".to_string(), 8080));
}

#[test]
fn health_report() {
    let good = CheckResult::from_outcome(None, 3);
    assert_eq!(good.status, "healthy");
    let bad = CheckResult::from_outcome(Some("down".to_string()), 5);
    assert_eq!(bad.status, "unhealthy");
    assert_eq!(bad.details, Some("down".to_string()));
    let ok = HealthStatus::new("t".to_string(), "1.0".to_string(), vec![("database".to_string(), good.clone())]);
    assert_eq!(ok.status, "healthy");
    let checks = vec![("database".to_string(), good), ("disk".to_string(), bad)];
    assert!(!overall_healthy(&checks));
    let not_ok = HealthStatus::new("t".to_string(), "1.0".to_string(), checks);
    assert_eq!(not_ok.status, "unhealthy");
}

#[test]
fn hours_and_amounts_are_written() {
    assert_eq!(format_hours(510), "8.50");
    assert_eq!(format_hours(120), "2.00");
    assert_eq!(format_hours(20), "0.33");
    assert_eq!(format_hours(50), "0.83");
    assert_eq!(format_hours(0), "0.00");
    assert_eq!(format_amount(30000), "€300.00");
    assert_eq!(format_amount(5), "€0.05");
    assert_eq!(format_amount(123456), "€1234.56");
}

#[test]
fn table_row_of_a_line_item() {
    let item = LineItem {
        name: "Design".to_string(),
        date: "2025-01-10".to_string(),
        start_time: "09:00".to_string(),
        end_time: "10:30".to_string(),
        duration_minutes: 90,
        amount_cents: 15000,
    };
    let de = line_item_cells(&item, Language::German);
    assert_eq!(de, vec!["Design", "10.01.2025", "09:00", "10:30", "1.50", "€150.00"]);
    let en = line_item_cells(&item, Language::English);
    assert_eq!(en[1], "2025-01-10");
}
