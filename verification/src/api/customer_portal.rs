//! Paths of the customer portal.
use vstd::prelude::*;
use crate::text::{bool_text, push_bool};
use crate::url::{
    append_optional_id, append_optional_nonempty, opt_id_param, opt_nonempty_param,
    opt_string_view,
};

verus! {

/// Scope and search of the customer portal.
#[derive(Clone, Default)]
pub struct CustomerPortalFilters {
    pub inventory_owner_id: Option<i64>,
    pub facility_id: Option<i64>,
    pub search: Option<String>,
    pub include_history: bool,
}

/// The query that every portal path carries, after its root.
pub open spec fn spec_filter_path(root: Seq<char>, filters: CustomerPortalFilters) -> Seq<char> {
    root + "?include_history="@ + bool_text(filters.include_history) + opt_id_param(
        "inventory_owner_id"@,
        filters.inventory_owner_id,
    ) + opt_id_param("facility_id"@, filters.facility_id) + opt_nonempty_param(
        "search"@,
        opt_string_view(filters.search),
    )
}

/// Builds `root?include_history=...` followed by the chosen client and
/// facility and the percent-encoded search, when it is not empty.
pub fn filter_path(root: &str, filters: &CustomerPortalFilters) -> (r: String)
    ensures
        r@ == spec_filter_path(root@, *filters),
{
    let mut path = String::from_str(root);
    path.append("?include_history=");
    push_bool(&mut path, filters.include_history);
    append_optional_id(&mut path, "inventory_owner_id", filters.inventory_owner_id);
    append_optional_id(&mut path, "facility_id", filters.facility_id);
    let search = match &filters.search {
        Some(s) => Some(s.as_str()),
        None => None,
    };
    append_optional_nonempty(&mut path, "search", search);
    path
}

/// Builds the path of the inventory report download.
pub fn customer_portal_inventory_report_path(filters: &CustomerPortalFilters) -> (r: String)
    ensures
        r@ == spec_filter_path("/api/v1/portal/reports/inventory.csv"@, *filters),
{
    filter_path("/api/v1/portal/reports/inventory.csv", filters)
}

/// Builds the path of the portal workspace.
pub fn customer_portal_path(filters: &CustomerPortalFilters) -> (r: String)
    ensures
        r@ == spec_filter_path("/api/v1/portal/workspace"@, *filters),
{
    filter_path("/api/v1/portal/workspace", filters)
}

} // verus!

verus! {

/// Every parameter of `spec_filter_path` whose value is given is sent: inventory_owner_id, facility_id, search.
pub proof fn lemma_filter_path_sends_what_is_set(root: Seq<char>, filters: CustomerPortalFilters)
    ensures
        ({
            let path = spec_filter_path(root, filters);
            &&& (filters.inventory_owner_id) matches Some(v) ==> crate::url::has_param(path, "inventory_owner_id"@, crate::text::decimal(v as int))
            &&& (filters.facility_id) matches Some(v) ==> crate::url::has_param(path, "facility_id"@, crate::text::decimal(v as int))
            &&& (opt_string_view(filters.search)) matches Some(v) ==> (v.len() > 0 ==> crate::url::has_param(path, "search"@, crate::url::url_encoded(v)))
        }),
{
    broadcast use crate::url::lemma_contains_appended, crate::url::lemma_contains_extended, crate::url::lemma_contains_prefix;

}

} // verus!
