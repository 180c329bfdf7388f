//! Decisions around stored invoices: fetching their document and deleting them.

use vstd::prelude::*;
use crate::error::InvoiceError;
use crate::numbering::{pdf_path, pdf_path_text};

verus! {

/// What the store holds of an invoice that its document needs.
#[derive(Clone, Debug)]
pub struct StoredInvoice {
    pub id: i32,
    pub invoice_number: String,
    pub pdf_path: String,
}

/// Decides whether the document of an invoice can be handed out: the id must
/// be positive, the invoice stored, and its document present on disk. On
/// success, returns the path to read.
pub fn locate_invoice_pdf(invoice_id: i32, stored: Option<&StoredInvoice>, file_exists: bool) -> (r:
    Result<String, InvoiceError>)
    ensures
        invoice_id <= 0 ==> r == Err::<String, InvoiceError>(InvoiceError::InvalidInvoiceId),
        invoice_id > 0 && stored is None ==> r == Err::<String, InvoiceError>(
            InvoiceError::InvoiceNotFound,
        ),
        invoice_id > 0 && stored is Some && !file_exists ==> r == Err::<String, InvoiceError>(
            InvoiceError::PdfFileNotFound,
        ),
        invoice_id > 0 && stored is Some && file_exists ==> (r matches Ok(p) && p@
            == stored->0.pdf_path@),
{
    if invoice_id <= 0 {
        return Err(InvoiceError::InvalidInvoiceId);
    }
    match stored {
        None => Err(InvoiceError::InvoiceNotFound),
        Some(inv) => {
            if file_exists {
                Ok(inv.pdf_path.clone())
            } else {
                Err(InvoiceError::PdfFileNotFound)
            }
        },
    }
}

/// The path at which the document of an invoice is looked for when it is
/// deleted: recomputed from the invoice number.
pub fn document_path_of(stored: &StoredInvoice) -> (r: String)
    ensures
        r@ == pdf_path_text(stored.invoice_number@),
{
    pdf_path(stored.invoice_number.as_str())
}

/// What deleting an invoice does: remove the document where it exists (a
/// missing document is no error), then remove the row.
#[derive(Clone, Debug)]
pub struct DeletionPlan {
    pub invoice_id: i32,
    /// The document to remove, where one exists.
    pub remove_file: Option<String>,
}

/// Plans the deletion of an invoice, given whether its document exists at the
/// path recomputed from its number. Fails only where the invoice is not stored.
pub fn plan_deletion(invoice_id: i32, stored: Option<&StoredInvoice>, file_exists: bool) -> (r: Result<
    DeletionPlan,
    InvoiceError,
>)
    ensures
        stored is None ==> r == Err::<DeletionPlan, InvoiceError>(InvoiceError::InvoiceNotFound),
        stored is Some ==> (r matches Ok(p) && p.invoice_id == invoice_id && (p.remove_file is Some
            == file_exists) && (p.remove_file matches Some(f) ==> f@ == pdf_path_text(
            stored->0.invoice_number@,
        ))),
{
    match stored {
        None => Err(InvoiceError::InvoiceNotFound),
        Some(inv) => {
            let remove_file = if file_exists {
                Some(document_path_of(inv))
            } else {
                None
            };
            Ok(DeletionPlan { invoice_id, remove_file })
        },
    }
}

} // verus!
