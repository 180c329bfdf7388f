//! The label tables of the invoice document.

use vstd::prelude::*;
use super::{Language, TranslationMap};

verus! {

/// The invoice labels of a language, as (key, text) pairs.
pub open spec fn invoice_labels(lang: Language) -> Seq<(&'static str, &'static str)> {
    match lang {
        Language::English => seq![
            ("invoice", "INVOICE"),
            ("date", "Date"),
            ("from", "FROM"),
            ("to", "TO"),
            ("contact", "Contact"),
            ("tax_id", "Tax ID"),
            ("service", "Service"),
            ("start", "Start"),
            ("end", "End"),
            ("hours", "Hours"),
            ("amount", "Amount"),
            ("total_hours", "Total Hours"),
            ("total_amount", "Total Amount"),
            ("payment_details", "Payment Details"),
            ("no_payment_details", "Please contact for payment details."),
        ],
        Language::German => seq![
            ("invoice", "RECHNUNG"),
            ("date", "Datum"),
            ("from", "VON"),
            ("to", "AN"),
            ("contact", "Ansprechpartner"),
            ("tax_id", "Steuernummer"),
            ("service", "Leistung"),
            ("start", "Beginn"),
            ("end", "Ende"),
            ("hours", "Stunden"),
            ("amount", "Betrag"),
            ("total_hours", "Gesamtstunden"),
            ("total_amount", "Gesamtbetrag"),
            ("payment_details", "Zahlungsinformationen"),
            ("no_payment_details", "Bitte kontaktieren Sie uns für Zahlungsdetails."),
        ],
    }
}

/// The labels of a language. Only invoice labels exist, so every category
/// gives them.
pub fn get_translations(lang: Language, category: &str) -> (r: TranslationMap)
    ensures
        r.entries@ == invoice_labels(lang),
{
    let mut e: Vec<(&'static str, &'static str)> = Vec::new();
    match lang {
        Language::English => {
            e.push(("invoice", "INVOICE"));
            e.push(("date", "Date"));
            e.push(("from", "FROM"));
            e.push(("to", "TO"));
            e.push(("contact", "Contact"));
            e.push(("tax_id", "Tax ID"));
            e.push(("service", "Service"));
            e.push(("start", "Start"));
            e.push(("end", "End"));
            e.push(("hours", "Hours"));
            e.push(("amount", "Amount"));
            e.push(("total_hours", "Total Hours"));
            e.push(("total_amount", "Total Amount"));
            e.push(("payment_details", "Payment Details"));
            e.push(("no_payment_details", "Please contact for payment details."));
        },
        Language::German => {
            e.push(("invoice", "RECHNUNG"));
            e.push(("date", "Datum"));
            e.push(("from", "VON"));
            e.push(("to", "AN"));
            e.push(("contact", "Ansprechpartner"));
            e.push(("tax_id", "Steuernummer"));
            e.push(("service", "Leistung"));
            e.push(("start", "Beginn"));
            e.push(("end", "Ende"));
            e.push(("hours", "Stunden"));
            e.push(("amount", "Betrag"));
            e.push(("total_hours", "Gesamtstunden"));
            e.push(("total_amount", "Gesamtbetrag"));
            e.push(("payment_details", "Zahlungsinformationen"));
            e.push(("no_payment_details", "Bitte kontaktieren Sie uns für Zahlungsdetails."));
        },
    }
    assert(e@ =~= invoice_labels(lang));
    TranslationMap { entries: e }
}

} // verus!
