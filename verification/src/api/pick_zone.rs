//! Paths of the pick-zone workspace.
use vstd::prelude::*;
use crate::text::{decimal, push_i64};

verus! {

/// Builds the path of the pick-zone workspace in one facility and client.
pub fn workspace_path(facility_id: i64, inventory_owner_id: i64) -> (r: String)
    ensures
        r@ == "/api/v1/pick-zones/workspace?facility_id="@ + decimal(facility_id as int)
            + "&inventory_owner_id="@ + decimal(inventory_owner_id as int),
{
    let mut path = String::from_str("/api/v1/pick-zones/workspace?facility_id=");
    push_i64(&mut path, facility_id);
    path.append("&inventory_owner_id=");
    push_i64(&mut path, inventory_owner_id);
    path
}

} // verus!
