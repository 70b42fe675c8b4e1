//! Paths of the pick-cluster workspace.
use vstd::prelude::*;
use crate::text::{bool_text, decimal, push_bool, push_i64};

verus! {

/// Builds the path of the pick-cluster workspace in one facility and client.
pub fn workspace_path(facility_id: i64, inventory_owner_id: i64, include_history: bool) -> (r:
    String)
    ensures
        r@ == "/api/v1/pick-clusters/workspace?facility_id="@ + decimal(facility_id as int)
            + "&inventory_owner_id="@ + decimal(inventory_owner_id as int) + "&include_history="@
            + bool_text(include_history),
{
    let mut path = String::from_str("/api/v1/pick-clusters/workspace?facility_id=");
    push_i64(&mut path, facility_id);
    path.append("&inventory_owner_id=");
    push_i64(&mut path, inventory_owner_id);
    path.append("&include_history=");
    push_bool(&mut path, include_history);
    path
}

} // verus!
