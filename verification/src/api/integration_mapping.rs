//! Paths of integration order mappings.
use vstd::prelude::*;
use crate::contract::{IntegrationOrderItemMappingStatus, IntegrationOrderOwnerMappingStatus};
use crate::url::{
    append_optional_encoded, append_optional_id, append_optional_nonempty, append_optional_raw,
    opt_as_str, opt_encoded_param, opt_id_param, opt_nonempty_param, opt_raw_param, opt_str_view,
    opt_string_view, opt_trim, opt_trimmed,
};

verus! {

/// Filters of the item mapping list.
#[derive(Debug, Clone, Default)]
pub struct IntegrationMappingFilters {
    pub inventory_owner_id: Option<i64>,
    pub source_key: Option<String>,
    pub item_id: Option<i64>,
    pub status: Option<IntegrationOrderItemMappingStatus>,
}

/// Filters of the owner mapping list.
#[derive(Debug, Clone, Default)]
pub struct IntegrationOwnerMappingFilters {
    pub inventory_owner_id: Option<i64>,
    pub source_key: Option<String>,
    pub status: Option<IntegrationOrderOwnerMappingStatus>,
}

/// The path of one page of item mappings.
pub open spec fn spec_mapping_page_path(
    filters: IntegrationMappingFilters,
    cursor: Option<Seq<char>>,
) -> Seq<char> {
    "/api/v1/integration-order-item-mappings?limit=100"@ + opt_id_param(
        "inventory_owner_id"@,
        filters.inventory_owner_id,
    ) + opt_nonempty_param("source_key"@, opt_trimmed(opt_string_view(filters.source_key)))
        + opt_id_param("item_id"@, filters.item_id) + opt_raw_param(
        "status"@,
        match filters.status {
            Some(s) => Some(s.wire()),
            None => None,
        },
    ) + opt_encoded_param("cursor"@, cursor)
}

/// Builds the path of one page of item mappings; the source key is trimmed,
/// left out when blank, and percent-encoded.
pub fn mapping_page_path(filters: &IntegrationMappingFilters, cursor: Option<&str>) -> (r: String)
    ensures
        r@ == spec_mapping_page_path(*filters, opt_str_view(cursor)),
{
    let mut path = String::from_str("/api/v1/integration-order-item-mappings?limit=100");
    append_optional_id(&mut path, "inventory_owner_id", filters.inventory_owner_id);
    append_optional_nonempty(&mut path, "source_key", opt_trim(opt_as_str(&filters.source_key)));
    append_optional_id(&mut path, "item_id", filters.item_id);
    let status = match filters.status {
        Some(s) => Some(s.as_wire()),
        None => None,
    };
    append_optional_raw(&mut path, "status", status);
    append_optional_encoded(&mut path, "cursor", cursor);
    path
}

/// The path of one page of owner mappings.
pub open spec fn spec_owner_mapping_page_path(
    filters: IntegrationOwnerMappingFilters,
    cursor: Option<Seq<char>>,
) -> Seq<char> {
    "/api/v1/integration-order-owner-mappings?limit=100"@ + opt_id_param(
        "inventory_owner_id"@,
        filters.inventory_owner_id,
    ) + opt_nonempty_param("source_key"@, opt_trimmed(opt_string_view(filters.source_key)))
        + opt_raw_param(
        "status"@,
        match filters.status {
            Some(s) => Some(s.wire()),
            None => None,
        },
    ) + opt_encoded_param("cursor"@, cursor)
}

/// Builds the path of one page of owner mappings; the source key is
/// trimmed, left out when blank, and percent-encoded.
pub fn owner_mapping_page_path(
    filters: &IntegrationOwnerMappingFilters,
    cursor: Option<&str>,
) -> (r: String)
    ensures
        r@ == spec_owner_mapping_page_path(*filters, opt_str_view(cursor)),
{
    let mut path = String::from_str("/api/v1/integration-order-owner-mappings?limit=100");
    append_optional_id(&mut path, "inventory_owner_id", filters.inventory_owner_id);
    append_optional_nonempty(&mut path, "source_key", opt_trim(opt_as_str(&filters.source_key)));
    let status = match filters.status {
        Some(s) => Some(s.as_wire()),
        None => None,
    };
    append_optional_raw(&mut path, "status", status);
    append_optional_encoded(&mut path, "cursor", cursor);
    path
}

} // verus!

verus! {

/// Every parameter of `spec_mapping_page_path` whose value is given is sent: inventory_owner_id, source_key, item_id, cursor.
pub proof fn lemma_mapping_page_path_sends_what_is_set(filters: IntegrationMappingFilters, cursor: Option<Seq<char>>,)
    ensures
        ({
            let path = spec_mapping_page_path(filters, cursor);
            &&& (filters.inventory_owner_id) matches Some(v) ==> crate::url::has_param(path, "inventory_owner_id"@, crate::text::decimal(v as int))
            &&& (opt_trimmed(opt_string_view(filters.source_key))) matches Some(v) ==> (v.len() > 0 ==> crate::url::has_param(path, "source_key"@, crate::url::url_encoded(v)))
            &&& (filters.item_id) matches Some(v) ==> crate::url::has_param(path, "item_id"@, crate::text::decimal(v as int))
            &&& (cursor) matches Some(v) ==> crate::url::has_param(path, "cursor"@, crate::url::url_encoded(v))
        }),
{
    broadcast use crate::url::lemma_contains_appended, crate::url::lemma_contains_extended, crate::url::lemma_contains_prefix;

}

/// Every parameter of `spec_owner_mapping_page_path` whose value is given is sent: inventory_owner_id, source_key, cursor.
pub proof fn lemma_owner_mapping_page_path_sends_what_is_set(filters: IntegrationOwnerMappingFilters, cursor: Option<Seq<char>>,)
    ensures
        ({
            let path = spec_owner_mapping_page_path(filters, cursor);
            &&& (filters.inventory_owner_id) matches Some(v) ==> crate::url::has_param(path, "inventory_owner_id"@, crate::text::decimal(v as int))
            &&& (opt_trimmed(opt_string_view(filters.source_key))) matches Some(v) ==> (v.len() > 0 ==> crate::url::has_param(path, "source_key"@, crate::url::url_encoded(v)))
            &&& (cursor) matches Some(v) ==> crate::url::has_param(path, "cursor"@, crate::url::url_encoded(v))
        }),
{
    broadcast use crate::url::lemma_contains_appended, crate::url::lemma_contains_extended, crate::url::lemma_contains_prefix;

}

} // verus!
