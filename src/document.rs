//! The text content of a rendered invoice that depends on its data: dates in
//! the reader's language and the payment details with the invoice number.

use vstd::prelude::*;
use crate::billing::LineItem;
use crate::calendar::{dotted_date_string, dotted_text, iso_date_string, iso_text, is_valid_date, CalendarDate};
use crate::digits::{decimal, padded, push_decimal, push_padded};
use crate::i18n::{lookup, missing_label, translate, translations::invoice_labels, Language};

verus! {

/// The placeholder that the payment details may hold.
pub open spec fn placeholder() -> Seq<char> {
    "{invoice_number}"@
}

/// `s` with every occurrence of `pat`, read from left to right without
/// overlaps, replaced by `rep`.
pub open spec fn replace_all(s: Seq<char>, pat: Seq<char>, rep: Seq<char>) -> Seq<char>
    decreases s.len(),
{
    if s.len() == 0 {
        s
    } else if 0 < pat.len() <= s.len() && s.take(pat.len() as int) == pat {
        rep + replace_all(s.skip(pat.len() as int), pat, rep)
    } else {
        seq![s[0]] + replace_all(s.skip(1), pat, rep)
    }
}

/// Whether `pat` occurs in `s` at position `i`.
fn occurs_at(s: &str, n: usize, pat: &str, m: usize, i: usize) -> (r: bool)
    requires
        n == s@.len(),
        m == pat@.len(),
        i <= n,
    ensures
        r == (i + m <= n && s@.subrange(i as int, i + m) == pat@),
{
    if m > n - i {
        return false;
    }
    let mut j: usize = 0;
    while j < m
        invariant
            n == s@.len(),
            m == pat@.len(),
            i + m <= n,
            j <= m,
            forall|k: int| 0 <= k < j ==> s@[i + k] == pat@[k],
        decreases m - j,
    {
        if s.get_char(i + j) != pat.get_char(j) {
            assert(s@.subrange(i as int, i + m)[j as int] != pat@[j as int]);
            return false;
        }
        j = j + 1;
    }
    assert(s@.subrange(i as int, i + m) =~= pat@);
    true
}

/// Replaces every occurrence of `pattern` in `text` by `replacement`, from left to right.
pub fn replace_all_occurrences(text: &str, pattern: &str, replacement: &str) -> (r: String)
    ensures
        r@ == replace_all(text@, pattern@, replacement@),
{
    let n = text.unicode_len();
    let m = pattern.unicode_len();
    let mut out = String::new();
    let mut i: usize = 0;
    assert(text@.skip(0) =~= text@);
    while i < n
        invariant
            n == text@.len(),
            m == pattern@.len(),
            i <= n,
            replace_all(text@, pattern@, replacement@) == out@ + replace_all(
                text@.skip(i as int),
                pattern@,
                replacement@,
            ),
        decreases n - i,
    {
        let ghost rest = text@.skip(i as int);
        if m > 0 && occurs_at(text, n, pattern, m, i) {
            assert(rest.take(m as int) =~= text@.subrange(i as int, i + m));
            assert(rest.skip(m as int) =~= text@.skip(i + m));
            out.append(replacement);
            i = i + m;
        } else {
            proof {
                if 0 < m && m <= rest.len() {
                    assert(rest.take(m as int) =~= text@.subrange(i as int, i + m));
                }
            }
            assert(rest.skip(1) =~= text@.skip(i + 1));
            let c = text.substring_char(i, i + 1);
            assert(c@ =~= seq![rest[0]]);
            out.append(c);
            i = i + 1;
        }
        assert(out@ + replace_all(text@.skip(i as int), pattern@, replacement@) =~= replace_all(
            text@,
            pattern@,
            replacement@,
        ));
    }
    assert(text@.skip(n as int) =~= Seq::<char>::empty());
    assert(out@ + Seq::<char>::empty() =~= out@);
    out
}

/// Fills the placeholder `{invoice_number}` in a text with the invoice number.
pub fn replace_placeholders(text: &str, invoice_number: &str) -> (r: String)
    ensures
        r@ == replace_all(text@, placeholder(), invoice_number@),
{
    replace_all_occurrences(text, "{invoice_number}", invoice_number)
}

/// The lines of a text, split at each '\n'; a text without one is one line,
/// and an empty text is one empty line.
pub open spec fn split_lines_spec(s: Seq<char>) -> Seq<Seq<char>>
    decreases s.len(),
{
    if s.len() == 0 {
        seq![Seq::<char>::empty()]
    } else {
        let p = split_lines_spec(s.drop_last());
        if s.last() == '\n' {
            p.push(Seq::<char>::empty())
        } else {
            p.update(p.len() - 1, p.last().push(s.last()))
        }
    }
}

proof fn lemma_split_nonempty(s: Seq<char>)
    ensures
        split_lines_spec(s).len() >= 1,
    decreases s.len(),
{
    if s.len() > 0 {
        lemma_split_nonempty(s.drop_last());
    }
}

pub open spec fn views(v: Seq<String>) -> Seq<Seq<char>> {
    v.map_values(|x: String| x@)
}

/// Splits a text into its lines at each '\n'.
pub fn split_lines(text: &str) -> (r: Vec<String>)
    ensures
        views(r@) == split_lines_spec(text@),
{
    let n = text.unicode_len();
    let mut done: Vec<String> = Vec::new();
    let mut cur = String::new();
    let mut i: usize = 0;
    assert(text@.take(0) =~= Seq::<char>::empty());
    assert(views(done@).push(cur@) =~= split_lines_spec(text@.take(0)));
    while i < n
        invariant
            n == text@.len(),
            i <= n,
            views(done@).push(cur@) == split_lines_spec(text@.take(i as int)),
        decreases n - i,
    {
        let c = text.get_char(i);
        let piece = text.substring_char(i, i + 1);
        assert(text@.take(i + 1).drop_last() =~= text@.take(i as int));
        assert(text@.take(i + 1).last() == c);
        proof { lemma_split_nonempty(text@.take(i as int)); }
        let ghost before = views(done@).push(cur@);
        if c == '\n' {
            done.push(cur);
            cur = String::new();
            assert(views(done@).push(cur@) =~= before.push(Seq::<char>::empty()));
        } else {
            assert(piece@ =~= seq![c]);
            let ghost old_cur = cur@;
            cur.append(piece);
            assert(cur@ =~= old_cur.push(c));
            assert(before.last() == old_cur);
            assert(views(done@).push(cur@) =~= before.update(
                before.len() - 1,
                before.last().push(c),
            ));
        }
        i = i + 1;
    }
    assert(text@.take(n as int) =~= text@);
    done.push(cur);
    assert(views(done@) =~= split_lines_spec(text@));
    done
}

/// The year, month and day that chrono reads from a text under the format
/// "%Y-%m-%d", or `None` where it rejects the text.
pub uninterp spec fn iso_date_of(s: Seq<char>) -> Option<(int, int, int)>;

/// A parsed date as mathematical integers.
pub open spec fn widen_date(d: Option<(i32, u32, u32)>) -> Option<(int, int, int)> {
    match d {
        Some((y, m, dd)) => Some((y as int, m as int, dd as int)),
        None => None,
    }
}

/// A parsed date, where present, is a valid calendar date.
pub open spec fn valid_parsed_date(d: Option<(i32, u32, u32)>) -> bool {
    d matches Some((y, m, dd)) ==> is_valid_date(y as int, m as int, dd as int)
}

/// Relies on chrono's `NaiveDate::parse_from_str` with the format "%Y-%m-%d",
/// and on `Datelike::year` / `month` / `day` of the date it returns: the result
/// depends on the text alone, and a date that chrono returns is a valid date
/// of its range.
#[verifier::external_body]
fn parse_iso_date(s: &str) -> (r: Option<(i32, u32, u32)>)
    ensures
        widen_date(r) == iso_date_of(s@),
        valid_parsed_date(r),
{
    chrono::NaiveDate::parse_from_str(s, "%Y-%m-%d").ok().map(
        |d| (chrono::Datelike::year(&d), chrono::Datelike::month(&d), chrono::Datelike::day(&d)),
    )
}

impl CalendarDate {
    /// Reads a date written "YYYY-MM-DD" (as chrono reads "%Y-%m-%d").
    pub fn parse_iso(s: &str) -> (r: Option<CalendarDate>)
        ensures
            match iso_date_of(s@) {
                Some((y, m, d)) => r matches Some(c) && c.year == y && c.month == m && c.day == d
                    && c.wf(),
                None => r is None,
            },
    {
        match parse_iso_date(s) {
            Some((y, m, d)) => Some(CalendarDate { year: y, month: m, day: d }),
            None => None,
        }
    }
}

/// A date in the reader's language: "DD.MM.YYYY" in German, "YYYY-MM-DD"
/// otherwise; a text that is no date stays as it is.
pub open spec fn localized_date(parsed: Option<(int, int, int)>, lang: Language, fallback: Seq<char>) -> Seq<
    char,
> {
    match parsed {
        Some((y, m, d)) => if lang == Language::German {
            dotted_text(y, m, d)
        } else {
            iso_text(y, m, d)
        },
        None => fallback,
    }
}

/// Writes a parsed date in the reader's language, or the given text where
/// nothing was parsed.
pub fn render_date(parsed: Option<(i32, u32, u32)>, lang: Language, fallback: &str) -> (r: String)
    requires
        valid_parsed_date(parsed),
    ensures
        r@ == localized_date(widen_date(parsed), lang, fallback@),
{
    match parsed {
        Some((y, m, d)) => match lang {
            Language::German => dotted_date_string(y, m, d),
            Language::English => iso_date_string(y, m, d),
        },
        None => String::from_str(fallback),
    }
}

/// Writes a date given as "YYYY-MM-DD" in the reader's language; text that is
/// no such date stays as it is.
pub fn format_date_for_language(date: &str, lang: Language) -> (r: String)
    ensures
        r@ == localized_date(iso_date_of(date@), lang, date@),
{
    let parsed = parse_iso_date(date);
    render_date(parsed, lang, date)
}

/// The label under `key` in `lang`, or the marker of a missing label.
pub open spec fn label(lang: Language, key: Seq<char>) -> Seq<char> {
    match lookup(invoice_labels(lang), key) {
        Some(t) => t,
        None => missing_label(),
    }
}

/// The lines of the payment section: the payment details with the invoice
/// number filled in, one line per line of text; without details, the notice
/// to ask for them.
pub fn payment_detail_lines(bank_details: Option<&str>, invoice_number: &str, lang: Language) -> (r: Vec<
    String,
>)
    ensures
        views(r@) == match bank_details {
            Some(b) => split_lines_spec(replace_all(b@, placeholder(), invoice_number@)),
            None => seq![label(lang, "no_payment_details"@)],
        },
{
    match bank_details {
        Some(b) => {
            let filled = replace_placeholders(b, invoice_number);
            split_lines(filled.as_str())
        },
        None => {
            let notice = translate(lang, "invoice", "no_payment_details");
            let mut v: Vec<String> = Vec::new();
            v.push(String::from_str(notice));
            assert(views(v@) =~= seq![label(lang, "no_payment_details"@)]);
            v
        },
    }
}

/// The title of an invoice: its label in the reader's language, " #", and its number.
pub fn invoice_title(lang: Language, invoice_number: &str) -> (r: String)
    ensures
        r@ == label(lang, "invoice"@) + " #"@ + invoice_number@,
{
    let mut s = String::from_str(translate(lang, "invoice", "invoice"));
    s.append(" #");
    s.append(invoice_number);
    s
}

/// Hundredths of an hour in `minutes`, rounded to the nearest.
pub open spec fn hundredths_of_hour(minutes: int) -> int {
    (minutes * 100 + 30) / 60
}

/// A number of hundredths written with two decimals ("8.50").
pub open spec fn two_decimals(hundredths: int) -> Seq<char> {
    decimal((hundredths / 100) as nat) + seq!['.'] + padded((hundredths % 100) as nat, 2)
}

fn push_two_decimals(s: &mut String, hundredths: u128)
    ensures
        final(s)@ == old(s)@ + two_decimals(hundredths as int),
{
    push_decimal(s, hundredths / 100);
    proof { reveal_strlit("."); }
    s.append(".");
    push_padded(s, hundredths % 100, 2);
    assert(final(s)@ =~= old(s)@ + two_decimals(hundredths as int));
}

/// A duration in hours with two decimals ("8.50" for 510 minutes).
pub fn format_hours(minutes: u128) -> (r: String)
    requires
        minutes <= u64::MAX,
    ensures
        r@ == two_decimals(hundredths_of_hour(minutes as int)),
{
    let mut s = String::new();
    push_two_decimals(&mut s, (minutes * 100 + 30) / 60);
    s
}

/// An amount in euros with two decimals ("€300.00" for 30000 cents).
pub fn format_amount(cents: u128) -> (r: String)
    ensures
        r@ == "€"@ + two_decimals(cents as int),
{
    let mut s = String::from_str("€");
    push_two_decimals(&mut s, cents);
    s
}

/// The cells of the table row of a line item: service, date in the reader's
/// language, start, end, hours and amount.
pub fn line_item_cells(item: &LineItem, lang: Language) -> (r: Vec<String>)
    ensures
        r@.len() == 6,
        r@[0]@ == item.name@,
        r@[1]@ == localized_date(iso_date_of(item.date@), lang, item.date@),
        r@[2]@ == item.start_time@,
        r@[3]@ == item.end_time@,
        r@[4]@ == two_decimals(hundredths_of_hour(item.duration_minutes as int)),
        r@[5]@ == "€"@ + two_decimals(item.amount_cents as int),
{
    let mut cells: Vec<String> = Vec::new();
    cells.push(item.name.clone());
    cells.push(format_date_for_language(item.date.as_str(), lang));
    cells.push(item.start_time.clone());
    cells.push(item.end_time.clone());
    cells.push(format_hours(item.duration_minutes as u128));
    cells.push(format_amount(item.amount_cents as u128));
    cells
}

} // verus!
