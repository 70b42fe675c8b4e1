//! Paths of purchase orders.
use vstd::prelude::*;
use crate::contract::PurchaseOrderStatus;
use crate::url::{
    append_optional_encoded, append_optional_id, append_optional_nonempty, append_optional_raw,
    opt_encoded_param, opt_id_param, opt_nonempty_param, opt_raw_param, opt_str_view,
    opt_string_view,
};

verus! {

/// Filters of the purchase order list.
#[derive(Clone, Default)]
pub struct PurchaseOrderFilters {
    pub facility_id: Option<i64>,
    pub inventory_owner_id: Option<i64>,
    pub status: Option<PurchaseOrderStatus>,
    pub search: Option<String>,
}

/// The path of one page of purchase orders.
pub open spec fn spec_purchase_order_page_path(filters: PurchaseOrderFilters, cursor: Option<Seq<char>>) -> Seq<
    char,
> {
    "/api/v1/purchase-orders?limit=100"@ + opt_id_param("facility_id"@, filters.facility_id)
        + opt_id_param("inventory_owner_id"@, filters.inventory_owner_id) + opt_raw_param(
        "status"@,
        match filters.status {
            Some(s) => Some(s.wire()),
            None => None,
        },
    ) + opt_nonempty_param("search"@, opt_string_view(filters.search)) + opt_encoded_param(
        "cursor"@,
        cursor,
    )
}

/// Builds the path of one page of purchase orders.
pub fn purchase_order_page_path(filters: &PurchaseOrderFilters, cursor: Option<&str>) -> (r: String)
    ensures
        r@ == spec_purchase_order_page_path(*filters, opt_str_view(cursor)),
{
    let mut path = String::from_str("/api/v1/purchase-orders?limit=100");
    append_optional_id(&mut path, "facility_id", filters.facility_id);
    append_optional_id(&mut path, "inventory_owner_id", filters.inventory_owner_id);
    let status = match filters.status {
        Some(s) => Some(s.as_wire()),
        None => None,
    };
    append_optional_raw(&mut path, "status", status);
    let search = match &filters.search {
        Some(s) => Some(s.as_str()),
        None => None,
    };
    append_optional_nonempty(&mut path, "search", search);
    append_optional_encoded(&mut path, "cursor", cursor);
    path
}

} // verus!

verus! {

/// Every parameter of `spec_purchase_order_page_path` whose value is given is sent: facility_id, inventory_owner_id, search, cursor.
pub proof fn lemma_purchase_order_page_path_sends_what_is_set(filters: PurchaseOrderFilters, cursor: Option<Seq<char>>)
    ensures
        ({
            let path = spec_purchase_order_page_path(filters, cursor);
            &&& (filters.facility_id) matches Some(v) ==> crate::url::has_param(path, "facility_id"@, crate::text::decimal(v as int))
            &&& (filters.inventory_owner_id) matches Some(v) ==> crate::url::has_param(path, "inventory_owner_id"@, crate::text::decimal(v as int))
            &&& (opt_string_view(filters.search)) matches Some(v) ==> (v.len() > 0 ==> crate::url::has_param(path, "search"@, crate::url::url_encoded(v)))
            &&& (cursor) matches Some(v) ==> crate::url::has_param(path, "cursor"@, crate::url::url_encoded(v))
        }),
{
    broadcast use crate::url::lemma_contains_appended, crate::url::lemma_contains_extended, crate::url::lemma_contains_prefix;

}

} // verus!
