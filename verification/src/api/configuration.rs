//! Paths of decision-rule configurations.
use vstd::prelude::*;
use crate::contract::{ConfigurationStatus, DecisionRuleKind};
use crate::url::{
    append_optional_encoded, append_optional_id, append_optional_raw, opt_encoded_param,
    opt_id_param, opt_raw_param, opt_str_view,
};

verus! {

/// Filters of the configuration list.
#[derive(Clone, Copy, Default)]
pub struct ConfigurationFilters {
    pub kind: Option<DecisionRuleKind>,
    pub status: Option<ConfigurationStatus>,
    pub inventory_owner_id: Option<i64>,
    pub facility_id: Option<i64>,
}

/// The path of one page of configurations.
pub open spec fn spec_page_path(filters: ConfigurationFilters, cursor: Option<Seq<char>>) -> Seq<
    char,
> {
    "/api/v1/configurations?limit=100"@ + opt_raw_param(
        "kind"@,
        match filters.kind {
            Some(k) => Some(k.wire()),
            None => None,
        },
    ) + opt_raw_param(
        "status"@,
        match filters.status {
            Some(s) => Some(s.wire()),
            None => None,
        },
    ) + opt_id_param("inventory_owner_id"@, filters.inventory_owner_id) + opt_id_param(
        "facility_id"@,
        filters.facility_id,
    ) + opt_encoded_param("cursor"@, cursor)
}

/// Builds the path of one page of configurations, binding every filter that
/// is set and the percent-encoded cursor.
pub fn page_path(filters: ConfigurationFilters, cursor: Option<&str>) -> (r: String)
    ensures
        r@ == spec_page_path(filters, opt_str_view(cursor)),
{
    let mut path = String::from_str("/api/v1/configurations?limit=100");
    let kind = match filters.kind {
        Some(k) => Some(k.as_wire()),
        None => None,
    };
    append_optional_raw(&mut path, "kind", kind);
    let status = match filters.status {
        Some(s) => Some(s.as_wire()),
        None => None,
    };
    append_optional_raw(&mut path, "status", status);
    append_optional_id(&mut path, "inventory_owner_id", filters.inventory_owner_id);
    append_optional_id(&mut path, "facility_id", filters.facility_id);
    append_optional_encoded(&mut path, "cursor", cursor);
    path
}

} // verus!

verus! {

/// Every parameter of `spec_page_path` whose value is given is sent: inventory_owner_id, facility_id, cursor.
pub proof fn lemma_page_path_sends_what_is_set(filters: ConfigurationFilters, cursor: Option<Seq<char>>)
    ensures
        ({
            let path = spec_page_path(filters, cursor);
            &&& (filters.inventory_owner_id) matches Some(v) ==> crate::url::has_param(path, "inventory_owner_id"@, crate::text::decimal(v as int))
            &&& (filters.facility_id) matches Some(v) ==> crate::url::has_param(path, "facility_id"@, crate::text::decimal(v as int))
            &&& (cursor) matches Some(v) ==> crate::url::has_param(path, "cursor"@, crate::url::url_encoded(v))
        }),
{
    broadcast use crate::url::lemma_contains_appended, crate::url::lemma_contains_extended, crate::url::lemma_contains_prefix;

}

} // verus!
