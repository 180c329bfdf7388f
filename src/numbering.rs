//! Invoice numbers: a gap-free sequence per calendar year, written "YYYY-NNNN".

use vstd::prelude::*;
use crate::digits::{decimal, padded, push_decimal, push_padded};
use crate::error::InvoiceError;

verus! {

/// Earliest year in which invoices are numbered.
pub const FIRST_INVOICE_YEAR: i32 = 2000;

/// Highest sequence number in `year` among the `(year, sequence_number)` pairs
/// of the stored invoices; 0 where the year has none.
pub open spec fn max_sequence_in_year(rows: Seq<(int, int)>, year: int) -> int
    decreases rows.len(),
{
    if rows.len() == 0 {
        0
    } else {
        let rest = max_sequence_in_year(rows.drop_last(), year);
        let last = rows.last();
        if last.0 == year && last.1 > rest {
            last.1
        } else {
            rest
        }
    }
}

/// The sequence number that the next invoice of `year` receives.
pub open spec fn next_sequence_in_year(rows: Seq<(int, int)>, year: int) -> int {
    max_sequence_in_year(rows, year) + 1
}

/// Whether invoices can be numbered in `target_year` when the current year is `current_year`.
pub open spec fn numbering_year_ok(target_year: int, current_year: int) -> bool {
    FIRST_INVOICE_YEAR <= target_year <= current_year + 1
}

/// The next sequence number for `target_year`, given the highest one stored for
/// that year (`None` where the year has no invoice yet).
pub fn next_sequence_number(target_year: i32, current_year: i32, max_existing: Option<u32>) -> (r:
    Result<u32, InvoiceError>)
    ensures
        !numbering_year_ok(target_year as int, current_year as int) ==> r == Err::<u32, InvoiceError>(
            InvoiceError::InvalidYear,
        ),
        numbering_year_ok(target_year as int, current_year as int) ==> match max_existing {
            None => r == Ok::<u32, InvoiceError>(1),
            Some(m) => if m < u32::MAX {
                r == Ok::<u32, InvoiceError>((m + 1) as u32)
            } else {
                r == Err::<u32, InvoiceError>(InvoiceError::SequenceExhausted)
            },
        },
{
    if target_year < FIRST_INVOICE_YEAR || target_year as i64 > current_year as i64 + 1 {
        return Err(InvoiceError::InvalidYear);
    }
    match max_existing {
        None => Ok(1),
        Some(m) => {
            if m < u32::MAX {
                Ok(m + 1)
            } else {
                Err(InvoiceError::SequenceExhausted)
            }
        },
    }
}

/// The invoice number of the given year and sequence number: the year, a dash,
/// and the sequence number padded with zeros to four digits.
pub open spec fn invoice_number_text(year: int, sequence: int) -> Seq<char> {
    decimal(year as nat) + seq!['-'] + padded(sequence as nat, 4)
}

/// Writes the invoice number "YYYY-NNNN" of a year and a sequence number.
pub fn invoice_number(year: u32, sequence: u32) -> (r: String)
    ensures
        r@ == invoice_number_text(year as int, sequence as int),
{
    let mut s = String::new();
    push_decimal(&mut s, year as u128);
    proof { reveal_strlit("-"); }
    s.append("-");
    push_padded(&mut s, sequence as u128, 4);
    assert(s@ =~= invoice_number_text(year as int, sequence as int));
    s
}

/// Where the rendered document of an invoice is kept, relative to the working directory.
pub open spec fn pdf_path_text(number: Seq<char>) -> Seq<char> {
    "invoices/invoice_"@ + number + ".pdf"@
}

/// The path "invoices/invoice_{number}.pdf" of an invoice's document.
pub fn pdf_path(invoice_number: &str) -> (r: String)
    ensures
        r@ == pdf_path_text(invoice_number@),
{
    let mut s = String::from_str("invoices/invoice_");
    s.append(invoice_number);
    s.append(".pdf");
    s
}

/// Numbering is gap-free and unique within a year: every stored invoice of
/// `year` has a smaller sequence number than the next one, and once an invoice
/// with that next number is stored, the number after it is exactly one higher.
/// Other years are not affected.
pub proof fn lemma_sequence_gap_free(rows: Seq<(int, int)>, year: int, other_year: int)
    requires
        other_year != year,
    ensures
        forall|i: int|
            0 <= i < rows.len() && (#[trigger] rows[i]).0 == year ==> rows[i].1 < next_sequence_in_year(
                rows,
                year,
            ),
        next_sequence_in_year(rows.push((year, next_sequence_in_year(rows, year))), year)
            == next_sequence_in_year(rows, year) + 1,
        next_sequence_in_year(rows.push((year, next_sequence_in_year(rows, year))), other_year)
            == next_sequence_in_year(rows, other_year),
{
    lemma_max_bounds(rows, year);
    let n = next_sequence_in_year(rows, year);
    let pushed = rows.push((year, n));
    assert(pushed.drop_last() =~= rows);
    assert(pushed.last() == (year, n));
}

proof fn lemma_max_bounds(rows: Seq<(int, int)>, year: int)
    ensures
        max_sequence_in_year(rows, year) >= 0,
        forall|i: int|
            0 <= i < rows.len() && (#[trigger] rows[i]).0 == year ==> rows[i].1 <= max_sequence_in_year(
                rows,
                year,
            ),
    decreases rows.len(),
{
    if rows.len() > 0 {
        lemma_max_bounds(rows.drop_last(), year);
        assert forall|i: int|
            0 <= i < rows.len() && (#[trigger] rows[i]).0 == year implies rows[i].1
            <= max_sequence_in_year(rows, year) by {
            if i < rows.len() - 1 {
                assert(rows.drop_last()[i] == rows[i]);
            }
        }
    }
}

} // verus!
