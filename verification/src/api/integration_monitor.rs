//! Paths of the integration monitor.
use vstd::prelude::*;
use crate::contract::{
    InboundIntegrationSort, IntegrationSortDirection, OutboundDeliveryStatus,
    OutboundIntegrationSort,
};
use crate::text::decimal;
use crate::url::{
    append_optional_encoded, append_optional_id, append_optional_nonempty, append_optional_raw,
    opt_as_str, opt_encoded_param, opt_id_param, opt_nonempty_param, opt_raw_param, opt_str_view,
    opt_string_view, opt_trim, opt_trimmed,
};
use super::resource_path;

verus! {

/// Filters of the inbound receipt list.
#[derive(Clone, Default)]
pub struct InboundIntegrationFilters {
    pub query: Option<String>,
    pub source_key: Option<String>,
    pub facility_id: Option<i64>,
    pub inventory_owner_id: Option<i64>,
}

/// Filters of the outbound event list.
#[derive(Clone, Default)]
pub struct OutboundIntegrationFilters {
    pub query: Option<String>,
    pub event_type: Option<String>,
    pub status: Option<OutboundDeliveryStatus>,
    pub facility_id: Option<i64>,
    pub inventory_owner_id: Option<i64>,
}

/// Builds the path that downloads the payload of one inbound receipt.
pub fn inbound_payload_download_path(receipt_id: i64) -> (r: String)
    ensures
        r@ == "/api/v1/integration-monitor/inbound/"@ + decimal(receipt_id as int) + "/payload"@,
{
    resource_path("/api/v1/integration-monitor/inbound/", receipt_id, "/payload")
}

/// A trimmed, percent-encoded text filter, left out when blank.
pub open spec fn text_param(name: Seq<char>, value: Option<String>) -> Seq<char> {
    opt_nonempty_param(name, opt_trimmed(opt_string_view(value)))
}

/// Appends a text filter: trimmed, left out when blank, percent-encoded.
pub fn push_text(path: &mut String, name: &str, value: &Option<String>)
    ensures
        final(path)@ == old(path)@ + text_param(name@, *value),
{
    append_optional_nonempty(path, name, opt_trim(opt_as_str(value)));
}

/// The path of one page of inbound receipts.
pub open spec fn spec_inbound_path(
    filters: InboundIntegrationFilters,
    sort: InboundIntegrationSort,
    direction: IntegrationSortDirection,
    cursor: Option<Seq<char>>,
) -> Seq<char> {
    "/api/v1/integration-monitor/inbound?limit=100&sort="@ + sort.wire() + "&direction="@
        + direction.wire() + text_param("query"@, filters.query) + text_param(
        "source_key"@,
        filters.source_key,
    ) + opt_id_param("facility_id"@, filters.facility_id) + opt_id_param(
        "inventory_owner_id"@,
        filters.inventory_owner_id,
    ) + opt_encoded_param("cursor"@, cursor)
}

/// Builds the path of one page of inbound receipts, sorted on the server.
pub fn inbound_path(
    filters: &InboundIntegrationFilters,
    sort: InboundIntegrationSort,
    direction: IntegrationSortDirection,
    cursor: Option<&str>,
) -> (r: String)
    ensures
        r@ == spec_inbound_path(*filters, sort, direction, opt_str_view(cursor)),
{
    let mut path = String::from_str("/api/v1/integration-monitor/inbound?limit=100&sort=");
    path.append(sort.as_wire());
    path.append("&direction=");
    path.append(direction.as_wire());
    push_text(&mut path, "query", &filters.query);
    push_text(&mut path, "source_key", &filters.source_key);
    append_optional_id(&mut path, "facility_id", filters.facility_id);
    append_optional_id(&mut path, "inventory_owner_id", filters.inventory_owner_id);
    append_optional_encoded(&mut path, "cursor", cursor);
    path
}

/// The path of one page of outbound events.
pub open spec fn spec_outbound_path(
    filters: OutboundIntegrationFilters,
    sort: OutboundIntegrationSort,
    direction: IntegrationSortDirection,
    cursor: Option<Seq<char>>,
) -> Seq<char> {
    "/api/v1/integration-monitor/outbound?limit=100&sort="@ + sort.wire() + "&direction="@
        + direction.wire() + text_param("query"@, filters.query) + text_param(
        "event_type"@,
        filters.event_type,
    ) + opt_raw_param(
        "status"@,
        match filters.status {
            Some(s) => Some(s.wire()),
            None => None,
        },
    ) + opt_id_param("facility_id"@, filters.facility_id) + opt_id_param(
        "inventory_owner_id"@,
        filters.inventory_owner_id,
    ) + opt_encoded_param("cursor"@, cursor)
}

/// Builds the path of one page of outbound events, sorted on the server.
pub fn outbound_path(
    filters: &OutboundIntegrationFilters,
    sort: OutboundIntegrationSort,
    direction: IntegrationSortDirection,
    cursor: Option<&str>,
) -> (r: String)
    ensures
        r@ == spec_outbound_path(*filters, sort, direction, opt_str_view(cursor)),
{
    let mut path = String::from_str("/api/v1/integration-monitor/outbound?limit=100&sort=");
    path.append(sort.as_wire());
    path.append("&direction=");
    path.append(direction.as_wire());
    push_text(&mut path, "query", &filters.query);
    push_text(&mut path, "event_type", &filters.event_type);
    let status = match filters.status {
        Some(s) => Some(s.as_wire()),
        None => None,
    };
    append_optional_raw(&mut path, "status", status);
    append_optional_id(&mut path, "facility_id", filters.facility_id);
    append_optional_id(&mut path, "inventory_owner_id", filters.inventory_owner_id);
    append_optional_encoded(&mut path, "cursor", cursor);
    path
}

} // verus!

verus! {

/// Every parameter of `spec_inbound_path` whose value is given is sent: facility_id, inventory_owner_id, cursor.
pub proof fn lemma_inbound_path_sends_what_is_set(filters: InboundIntegrationFilters, sort: InboundIntegrationSort, direction: IntegrationSortDirection, cursor: Option<Seq<char>>,)
    ensures
        ({
            let path = spec_inbound_path(filters, sort, direction, cursor);
            &&& (filters.facility_id) matches Some(v) ==> crate::url::has_param(path, "facility_id"@, crate::text::decimal(v as int))
            &&& (filters.inventory_owner_id) matches Some(v) ==> crate::url::has_param(path, "inventory_owner_id"@, crate::text::decimal(v as int))
            &&& (cursor) matches Some(v) ==> crate::url::has_param(path, "cursor"@, crate::url::url_encoded(v))
        }),
{
    broadcast use crate::url::lemma_contains_appended, crate::url::lemma_contains_extended, crate::url::lemma_contains_prefix;

}

/// Every parameter of `spec_outbound_path` whose value is given is sent: facility_id, inventory_owner_id, cursor.
pub proof fn lemma_outbound_path_sends_what_is_set(filters: OutboundIntegrationFilters, sort: OutboundIntegrationSort, direction: IntegrationSortDirection, cursor: Option<Seq<char>>,)
    ensures
        ({
            let path = spec_outbound_path(filters, sort, direction, cursor);
            &&& (filters.facility_id) matches Some(v) ==> crate::url::has_param(path, "facility_id"@, crate::text::decimal(v as int))
            &&& (filters.inventory_owner_id) matches Some(v) ==> crate::url::has_param(path, "inventory_owner_id"@, crate::text::decimal(v as int))
            &&& (cursor) matches Some(v) ==> crate::url::has_param(path, "cursor"@, crate::url::url_encoded(v))
        }),
{
    broadcast use crate::url::lemma_contains_appended, crate::url::lemma_contains_extended, crate::url::lemma_contains_prefix;

}

} // verus!
