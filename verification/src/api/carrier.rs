//! Paths of carrier accounts and manifest jobs.
use vstd::prelude::*;
use crate::text::{bool_text, decimal, push_bool, push_count, push_i64};
use crate::url::{append_optional_raw, opt_raw_param, opt_str_view};

verus! {

/// Builds the path of one page of carrier accounts in a client and facility
/// scope; the cursor is passed as it is.
pub fn account_page_path(
    owner_id: i64,
    facility_id: i64,
    include_disabled: bool,
    cursor: Option<&str>,
    limit: u16,
) -> (r: String)
    ensures
        r@ == "/api/v1/carrier-accounts?inventory_owner_id="@ + decimal(owner_id as int)
            + "&facility_id="@ + decimal(facility_id as int) + "&include_disabled="@ + bool_text(
            include_disabled,
        ) + "&limit="@ + decimal(limit as int) + opt_raw_param("cursor"@, opt_str_view(cursor)),
{
    let mut path = String::from_str("/api/v1/carrier-accounts?inventory_owner_id=");
    push_i64(&mut path, owner_id);
    path.append("&facility_id=");
    push_i64(&mut path, facility_id);
    path.append("&include_disabled=");
    push_bool(&mut path, include_disabled);
    path.append("&limit=");
    push_count(&mut path, limit as u64);
    append_optional_raw(&mut path, "cursor", cursor);
    path
}

/// Builds the path of one page of a shipment's carrier manifest jobs; the
/// cursor is passed as it is.
pub fn job_page_path(shipment_id: i64, cursor: Option<&str>, limit: u16) -> (r: String)
    ensures
        r@ == "/api/v1/shipments/"@ + decimal(shipment_id as int)
            + "/carrier-manifest-jobs?limit="@ + decimal(limit as int) + opt_raw_param(
            "cursor"@,
            opt_str_view(cursor),
        ),
{
    let mut path = String::from_str("/api/v1/shipments/");
    push_i64(&mut path, shipment_id);
    path.append("/carrier-manifest-jobs?limit=");
    push_count(&mut path, limit as u64);
    append_optional_raw(&mut path, "cursor", cursor);
    path
}

} // verus!
