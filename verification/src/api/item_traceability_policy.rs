//! Paths of item traceability policies.
use vstd::prelude::*;
use crate::contract::{ItemTraceabilityPolicyStatus, TraceabilityRequirement};
use crate::url::{
    append_optional_id, append_optional_raw, opt_id_param, opt_raw_param, opt_str_view,
};

verus! {

/// Filters of the traceability policy list.
#[derive(Clone, Copy)]
pub struct ItemTraceabilityPolicyFilters {
    pub inventory_owner_id: Option<i64>,
    pub facility_id: Option<i64>,
    pub item_id: Option<i64>,
    pub lot: Option<TraceabilityRequirement>,
    pub serial: Option<TraceabilityRequirement>,
    pub expiration: Option<TraceabilityRequirement>,
    pub status: ItemTraceabilityPolicyStatus,
}

/// The wire value of an optional requirement.
pub open spec fn requirement_wire(value: Option<TraceabilityRequirement>) -> Option<Seq<char>> {
    match value {
        Some(v) => Some(v.wire()),
        None => None,
    }
}

/// The wire text of an optional requirement.
fn requirement_text(value: Option<TraceabilityRequirement>) -> (r: Option<&'static str>)
    ensures
        opt_str_view(r) == requirement_wire(value),
{
    match value {
        Some(v) => Some(v.as_wire()),
        None => None,
    }
}

/// The path of one page of traceability policies.
pub open spec fn spec_page_path(
    filters: ItemTraceabilityPolicyFilters,
    cursor: Option<Seq<char>>,
) -> Seq<char> {
    "/api/v1/item-traceability-policies?limit=100&status="@ + filters.status.wire()
        + opt_id_param("inventory_owner_id"@, filters.inventory_owner_id) + opt_id_param(
        "facility_id"@,
        filters.facility_id,
    ) + opt_id_param("item_id"@, filters.item_id) + opt_raw_param(
        "lot"@,
        requirement_wire(filters.lot),
    ) + opt_raw_param("serial"@, requirement_wire(filters.serial)) + opt_raw_param(
        "expiration"@,
        requirement_wire(filters.expiration),
    ) + opt_raw_param("cursor"@, cursor)
}

/// Builds the path of one page of traceability policies: identity filters,
/// then each requirement that is set, then the cursor as it is.
pub fn page_path(filters: ItemTraceabilityPolicyFilters, cursor: Option<&str>) -> (r: String)
    ensures
        r@ == spec_page_path(filters, opt_str_view(cursor)),
{
    let mut path = String::from_str("/api/v1/item-traceability-policies?limit=100&status=");
    path.append(filters.status.as_wire());
    append_optional_id(&mut path, "inventory_owner_id", filters.inventory_owner_id);
    append_optional_id(&mut path, "facility_id", filters.facility_id);
    append_optional_id(&mut path, "item_id", filters.item_id);
    append_optional_raw(&mut path, "lot", requirement_text(filters.lot));
    append_optional_raw(&mut path, "serial", requirement_text(filters.serial));
    append_optional_raw(&mut path, "expiration", requirement_text(filters.expiration));
    append_optional_raw(&mut path, "cursor", cursor);
    path
}

} // verus!

verus! {

/// Every parameter of `spec_page_path` whose value is given is sent: inventory_owner_id, facility_id, item_id, lot, serial, expiration, cursor.
pub proof fn lemma_page_path_sends_what_is_set(filters: ItemTraceabilityPolicyFilters, cursor: Option<Seq<char>>,)
    ensures
        ({
            let path = spec_page_path(filters, cursor);
            &&& (filters.inventory_owner_id) matches Some(v) ==> crate::url::has_param(path, "inventory_owner_id"@, crate::text::decimal(v as int))
            &&& (filters.facility_id) matches Some(v) ==> crate::url::has_param(path, "facility_id"@, crate::text::decimal(v as int))
            &&& (filters.item_id) matches Some(v) ==> crate::url::has_param(path, "item_id"@, crate::text::decimal(v as int))
            &&& (requirement_wire(filters.lot)) matches Some(v) ==> crate::url::has_param(path, "lot"@, v)
            &&& (requirement_wire(filters.serial)) matches Some(v) ==> crate::url::has_param(path, "serial"@, v)
            &&& (requirement_wire(filters.expiration)) matches Some(v) ==> crate::url::has_param(path, "expiration"@, v)
            &&& (cursor) matches Some(v) ==> crate::url::has_param(path, "cursor"@, v)
        }),
{
    broadcast use crate::url::lemma_contains_appended, crate::url::lemma_contains_extended, crate::url::lemma_contains_prefix;

}

} // verus!
