//! Paths of the inventory journal, integrity issues, aging and recalls.
use vstd::prelude::*;
use crate::contract::{
    InventoryAgingBucket, InventoryAgingSort, InventoryIntegrityIssueKind, InventoryIntegritySort,
    InventoryJournalSort, InventoryRecallStatus, InventorySortDirection,
};
use crate::url::{
    append_optional_encoded, append_optional_id, append_optional_nonempty, append_optional_raw,
    opt_as_str, opt_encoded_param, opt_id_param, opt_nonempty_param, opt_raw_param, opt_str_view,
    opt_string_view,
};

verus! {

/// Trace filters of the inventory journal.
#[derive(Clone, Default)]
pub struct JournalFilters {
    pub query: Option<String>,
    pub facility_id: Option<i64>,
    pub inventory_owner_id: Option<i64>,
    pub item_id: Option<i64>,
    pub item_batch_id: Option<i64>,
    pub license_plate_id: Option<i64>,
    pub transaction_id: Option<i64>,
}

/// Filters of the integrity issue list.
#[derive(Clone, Copy, Default)]
pub struct IntegrityFilters {
    pub kind: Option<InventoryIntegrityIssueKind>,
    pub facility_id: Option<i64>,
    pub inventory_owner_id: Option<i64>,
    pub item_id: Option<i64>,
}

/// Filters of the aging report.
#[derive(Clone, Default)]
pub struct AgingFilters {
    pub query: Option<String>,
    pub facility_id: Option<i64>,
    pub inventory_owner_id: Option<i64>,
    pub item_id: Option<i64>,
    pub bucket: Option<InventoryAgingBucket>,
}

/// The path of one page of the inventory journal.
pub open spec fn spec_journal_path(
    filters: JournalFilters,
    sort: InventoryJournalSort,
    direction: InventorySortDirection,
    cursor: Option<Seq<char>>,
) -> Seq<char> {
    "/api/v1/inventory/journal?limit=100&sort="@ + sort.wire() + "&direction="@ + direction.wire()
        + opt_nonempty_param("query"@, opt_string_view(filters.query)) + opt_id_param(
        "facility_id"@,
        filters.facility_id,
    ) + opt_id_param("inventory_owner_id"@, filters.inventory_owner_id) + opt_id_param(
        "item_id"@,
        filters.item_id,
    ) + opt_id_param("item_batch_id"@, filters.item_batch_id) + opt_id_param(
        "license_plate_id"@,
        filters.license_plate_id,
    ) + opt_id_param("transaction_id"@, filters.transaction_id) + opt_encoded_param(
        "cursor"@,
        cursor,
    )
}

/// Builds the path of one page of the inventory journal, binding the search
/// text (percent-encoded, left out when empty) and every trace filter.
pub fn journal_path(
    filters: &JournalFilters,
    sort: InventoryJournalSort,
    direction: InventorySortDirection,
    cursor: Option<&str>,
) -> (r: String)
    ensures
        r@ == spec_journal_path(*filters, sort, direction, opt_str_view(cursor)),
{
    let mut path = String::from_str("/api/v1/inventory/journal?limit=100&sort=");
    path.append(sort.as_wire());
    path.append("&direction=");
    path.append(direction.as_wire());
    append_optional_nonempty(&mut path, "query", opt_as_str(&filters.query));
    append_optional_id(&mut path, "facility_id", filters.facility_id);
    append_optional_id(&mut path, "inventory_owner_id", filters.inventory_owner_id);
    append_optional_id(&mut path, "item_id", filters.item_id);
    append_optional_id(&mut path, "item_batch_id", filters.item_batch_id);
    append_optional_id(&mut path, "license_plate_id", filters.license_plate_id);
    append_optional_id(&mut path, "transaction_id", filters.transaction_id);
    append_optional_encoded(&mut path, "cursor", cursor);
    path
}

/// The path of one page of integrity issues.
pub open spec fn spec_integrity_path(
    filters: IntegrityFilters,
    sort: InventoryIntegritySort,
    direction: InventorySortDirection,
    cursor: Option<Seq<char>>,
) -> Seq<char> {
    "/api/v1/inventory/integrity-issues?limit=100&sort="@ + sort.wire() + "&direction="@
        + direction.wire() + opt_raw_param(
        "kind"@,
        match filters.kind {
            Some(k) => Some(k.wire()),
            None => None,
        },
    ) + opt_id_param("facility_id"@, filters.facility_id) + opt_id_param(
        "inventory_owner_id"@,
        filters.inventory_owner_id,
    ) + opt_id_param("item_id"@, filters.item_id) + opt_encoded_param("cursor"@, cursor)
}

/// Builds the path of one page of integrity issues.
pub fn integrity_path(
    filters: IntegrityFilters,
    sort: InventoryIntegritySort,
    direction: InventorySortDirection,
    cursor: Option<&str>,
) -> (r: String)
    ensures
        r@ == spec_integrity_path(filters, sort, direction, opt_str_view(cursor)),
{
    let mut path = String::from_str("/api/v1/inventory/integrity-issues?limit=100&sort=");
    path.append(sort.as_wire());
    path.append("&direction=");
    path.append(direction.as_wire());
    let kind = match filters.kind {
        Some(k) => Some(k.as_wire()),
        None => None,
    };
    append_optional_raw(&mut path, "kind", kind);
    append_optional_id(&mut path, "facility_id", filters.facility_id);
    append_optional_id(&mut path, "inventory_owner_id", filters.inventory_owner_id);
    append_optional_id(&mut path, "item_id", filters.item_id);
    append_optional_encoded(&mut path, "cursor", cursor);
    path
}

/// The path of one page of the aging report.
pub open spec fn spec_aging_path(
    filters: AgingFilters,
    sort: InventoryAgingSort,
    direction: InventorySortDirection,
    cursor: Option<Seq<char>>,
) -> Seq<char> {
    "/api/v1/inventory/aging?limit=100&sort="@ + sort.wire() + "&direction="@ + direction.wire()
        + opt_nonempty_param("query"@, opt_string_view(filters.query)) + opt_id_param(
        "facility_id"@,
        filters.facility_id,
    ) + opt_id_param("inventory_owner_id"@, filters.inventory_owner_id) + opt_id_param(
        "item_id"@,
        filters.item_id,
    ) + opt_raw_param(
        "bucket"@,
        match filters.bucket {
            Some(b) => Some(b.wire()),
            None => None,
        },
    ) + opt_encoded_param("cursor"@, cursor)
}

/// Builds the path of one page of the aging report, binding the risk bucket.
pub fn aging_path(
    filters: &AgingFilters,
    sort: InventoryAgingSort,
    direction: InventorySortDirection,
    cursor: Option<&str>,
) -> (r: String)
    ensures
        r@ == spec_aging_path(*filters, sort, direction, opt_str_view(cursor)),
{
    let mut path = String::from_str("/api/v1/inventory/aging?limit=100&sort=");
    path.append(sort.as_wire());
    path.append("&direction=");
    path.append(direction.as_wire());
    append_optional_nonempty(&mut path, "query", opt_as_str(&filters.query));
    append_optional_id(&mut path, "facility_id", filters.facility_id);
    append_optional_id(&mut path, "inventory_owner_id", filters.inventory_owner_id);
    append_optional_id(&mut path, "item_id", filters.item_id);
    let bucket = match filters.bucket {
        Some(b) => Some(b.as_wire()),
        None => None,
    };
    append_optional_raw(&mut path, "bucket", bucket);
    append_optional_encoded(&mut path, "cursor", cursor);
    path
}

/// The path of one page of recalls.
pub open spec fn spec_recall_path(
    facility_id: Option<i64>,
    inventory_owner_id: Option<i64>,
    status: Option<InventoryRecallStatus>,
    cursor: Option<Seq<char>>,
) -> Seq<char> {
    "/api/v1/inventory/recalls?limit=100"@ + opt_id_param("facility_id"@, facility_id)
        + opt_id_param("inventory_owner_id"@, inventory_owner_id) + opt_raw_param(
        "status"@,
        match status {
            Some(s) => Some(s.wire()),
            None => None,
        },
    ) + opt_encoded_param("cursor"@, cursor)
}

/// Builds the path of one page of recalls.
pub fn recall_path(
    facility_id: Option<i64>,
    inventory_owner_id: Option<i64>,
    status: Option<InventoryRecallStatus>,
    cursor: Option<&str>,
) -> (r: String)
    ensures
        r@ == spec_recall_path(facility_id, inventory_owner_id, status, opt_str_view(cursor)),
{
    let mut path = String::from_str("/api/v1/inventory/recalls?limit=100");
    append_optional_id(&mut path, "facility_id", facility_id);
    append_optional_id(&mut path, "inventory_owner_id", inventory_owner_id);
    let wire = match status {
        Some(s) => Some(s.as_wire()),
        None => None,
    };
    append_optional_raw(&mut path, "status", wire);
    append_optional_encoded(&mut path, "cursor", cursor);
    path
}

} // verus!

verus! {

/// Every parameter of `spec_journal_path` whose value is given is sent: query, facility_id, inventory_owner_id, item_id, item_batch_id, license_plate_id, transaction_id, cursor.
pub proof fn lemma_journal_path_sends_what_is_set(filters: JournalFilters, sort: InventoryJournalSort, direction: InventorySortDirection, cursor: Option<Seq<char>>,)
    ensures
        ({
            let path = spec_journal_path(filters, sort, direction, cursor);
            &&& (opt_string_view(filters.query)) matches Some(v) ==> (v.len() > 0 ==> crate::url::has_param(path, "query"@, crate::url::url_encoded(v)))
            &&& (filters.facility_id) matches Some(v) ==> crate::url::has_param(path, "facility_id"@, crate::text::decimal(v as int))
            &&& (filters.inventory_owner_id) matches Some(v) ==> crate::url::has_param(path, "inventory_owner_id"@, crate::text::decimal(v as int))
            &&& (filters.item_id) matches Some(v) ==> crate::url::has_param(path, "item_id"@, crate::text::decimal(v as int))
            &&& (filters.item_batch_id) matches Some(v) ==> crate::url::has_param(path, "item_batch_id"@, crate::text::decimal(v as int))
            &&& (filters.license_plate_id) matches Some(v) ==> crate::url::has_param(path, "license_plate_id"@, crate::text::decimal(v as int))
            &&& (filters.transaction_id) matches Some(v) ==> crate::url::has_param(path, "transaction_id"@, crate::text::decimal(v as int))
            &&& (cursor) matches Some(v) ==> crate::url::has_param(path, "cursor"@, crate::url::url_encoded(v))
        }),
{
    broadcast use crate::url::lemma_contains_appended, crate::url::lemma_contains_extended, crate::url::lemma_contains_prefix;

}

/// Every parameter of `spec_integrity_path` whose value is given is sent: facility_id, inventory_owner_id, item_id, cursor.
pub proof fn lemma_integrity_path_sends_what_is_set(filters: IntegrityFilters, sort: InventoryIntegritySort, direction: InventorySortDirection, cursor: Option<Seq<char>>,)
    ensures
        ({
            let path = spec_integrity_path(filters, sort, direction, cursor);
            &&& (filters.facility_id) matches Some(v) ==> crate::url::has_param(path, "facility_id"@, crate::text::decimal(v as int))
            &&& (filters.inventory_owner_id) matches Some(v) ==> crate::url::has_param(path, "inventory_owner_id"@, crate::text::decimal(v as int))
            &&& (filters.item_id) matches Some(v) ==> crate::url::has_param(path, "item_id"@, crate::text::decimal(v as int))
            &&& (cursor) matches Some(v) ==> crate::url::has_param(path, "cursor"@, crate::url::url_encoded(v))
        }),
{
    broadcast use crate::url::lemma_contains_appended, crate::url::lemma_contains_extended, crate::url::lemma_contains_prefix;

}

/// Every parameter of `spec_aging_path` whose value is given is sent: query, facility_id, inventory_owner_id, item_id, cursor.
pub proof fn lemma_aging_path_sends_what_is_set(filters: AgingFilters, sort: InventoryAgingSort, direction: InventorySortDirection, cursor: Option<Seq<char>>,)
    ensures
        ({
            let path = spec_aging_path(filters, sort, direction, cursor);
            &&& (opt_string_view(filters.query)) matches Some(v) ==> (v.len() > 0 ==> crate::url::has_param(path, "query"@, crate::url::url_encoded(v)))
            &&& (filters.facility_id) matches Some(v) ==> crate::url::has_param(path, "facility_id"@, crate::text::decimal(v as int))
            &&& (filters.inventory_owner_id) matches Some(v) ==> crate::url::has_param(path, "inventory_owner_id"@, crate::text::decimal(v as int))
            &&& (filters.item_id) matches Some(v) ==> crate::url::has_param(path, "item_id"@, crate::text::decimal(v as int))
            &&& (cursor) matches Some(v) ==> crate::url::has_param(path, "cursor"@, crate::url::url_encoded(v))
        }),
{
    broadcast use crate::url::lemma_contains_appended, crate::url::lemma_contains_extended, crate::url::lemma_contains_prefix;

}

/// Every parameter of `spec_recall_path` whose value is given is sent: facility_id, inventory_owner_id, cursor.
pub proof fn lemma_recall_path_sends_what_is_set(facility_id: Option<i64>, inventory_owner_id: Option<i64>, status: Option<InventoryRecallStatus>, cursor: Option<Seq<char>>,)
    ensures
        ({
            let path = spec_recall_path(facility_id, inventory_owner_id, status, cursor);
            &&& (facility_id) matches Some(v) ==> crate::url::has_param(path, "facility_id"@, crate::text::decimal(v as int))
            &&& (inventory_owner_id) matches Some(v) ==> crate::url::has_param(path, "inventory_owner_id"@, crate::text::decimal(v as int))
            &&& (cursor) matches Some(v) ==> crate::url::has_param(path, "cursor"@, crate::url::url_encoded(v))
        }),
{
    broadcast use crate::url::lemma_contains_appended, crate::url::lemma_contains_extended, crate::url::lemma_contains_prefix;

}

} // verus!
