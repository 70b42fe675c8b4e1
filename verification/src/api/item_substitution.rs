//! Paths of item substitution policies.
use vstd::prelude::*;
use crate::text::{bool_text, decimal, push_bool, push_i64};

verus! {

/// Builds the path of the substitution policies of one source item in a
/// client and facility.
pub fn policy_list_path(
    inventory_owner_id: i64,
    facility_id: i64,
    source_item_id: i64,
    active_only: bool,
) -> (r: String)
    ensures
        r@ == "/api/v1/item-substitution-policies?inventory_owner_id="@ + decimal(
            inventory_owner_id as int,
        ) + "&facility_id="@ + decimal(facility_id as int) + "&source_item_id="@ + decimal(
            source_item_id as int,
        ) + "&active_only="@ + bool_text(active_only),
{
    let mut path = String::from_str("/api/v1/item-substitution-policies?inventory_owner_id=");
    push_i64(&mut path, inventory_owner_id);
    path.append("&facility_id=");
    push_i64(&mut path, facility_id);
    path.append("&source_item_id=");
    push_i64(&mut path, source_item_id);
    path.append("&active_only=");
    push_bool(&mut path, active_only);
    path
}

} // verus!
