//! Paths of shipment document printing.
use vstd::prelude::*;
use crate::text::{decimal, push_count, push_i64};
use crate::url::{append_optional_raw, opt_raw_param, opt_str_view};

verus! {

/// Builds the path of one page of a document's print jobs; the cursor is
/// passed as it is.
pub fn print_job_page_path(document_id: i64, cursor: Option<&str>, limit: u16) -> (r: String)
    ensures
        r@ == "/api/v1/shipment-documents/"@ + decimal(document_id as int) + "/print-jobs?limit="@
            + decimal(limit as int) + opt_raw_param("cursor"@, opt_str_view(cursor)),
{
    let mut path = String::from_str("/api/v1/shipment-documents/");
    push_i64(&mut path, document_id);
    path.append("/print-jobs?limit=");
    push_count(&mut path, limit as u64);
    append_optional_raw(&mut path, "cursor", cursor);
    path
}

} // verus!
