//! Paths of dynamic release.
use vstd::prelude::*;
use crate::text::{decimal, push_i64};

verus! {

/// Builds the path of dynamic-release readiness in one client and facility.
pub fn readiness_path(facility_id: i64, inventory_owner_id: i64) -> (r: String)
    ensures
        r@ == "/api/v1/dynamic-releases/readiness?facility_id="@ + decimal(facility_id as int)
            + "&inventory_owner_id="@ + decimal(inventory_owner_id as int),
{
    let mut path = String::from_str("/api/v1/dynamic-releases/readiness?facility_id=");
    push_i64(&mut path, facility_id);
    path.append("&inventory_owner_id=");
    push_i64(&mut path, inventory_owner_id);
    path
}

} // verus!
