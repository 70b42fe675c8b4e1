//! Paths of item storage policies.
use vstd::prelude::*;
use crate::contract::{ItemStoragePolicyStatus, StorageZonePurpose};
use crate::url::{
    append_optional_id, append_optional_raw, opt_id_param, opt_raw_param, opt_str_view,
};

verus! {

/// The path of one page of item storage policies.
pub open spec fn spec_page_path(
    inventory_owner_id: Option<i64>,
    facility_id: Option<i64>,
    item_id: Option<i64>,
    purpose: Option<StorageZonePurpose>,
    status: ItemStoragePolicyStatus,
    cursor: Option<Seq<char>>,
) -> Seq<char> {
    "/api/v1/item-storage-policies?limit=100&status="@ + status.wire() + opt_id_param(
        "inventory_owner_id"@,
        inventory_owner_id,
    ) + opt_id_param("facility_id"@, facility_id) + opt_id_param("item_id"@, item_id)
        + opt_raw_param(
        "purpose"@,
        match purpose {
            Some(p) => Some(p.wire()),
            None => None,
        },
    ) + opt_raw_param("cursor"@, cursor)
}

/// Builds the path of one page of item storage policies; every filter is
/// bound to the request the cursor belongs to, which is passed as it is.
pub fn page_path(
    inventory_owner_id: Option<i64>,
    facility_id: Option<i64>,
    item_id: Option<i64>,
    purpose: Option<StorageZonePurpose>,
    status: ItemStoragePolicyStatus,
    cursor: Option<&str>,
) -> (r: String)
    ensures
        r@ == spec_page_path(
            inventory_owner_id,
            facility_id,
            item_id,
            purpose,
            status,
            opt_str_view(cursor),
        ),
{
    let mut path = String::from_str("/api/v1/item-storage-policies?limit=100&status=");
    path.append(status.as_wire());
    append_optional_id(&mut path, "inventory_owner_id", inventory_owner_id);
    append_optional_id(&mut path, "facility_id", facility_id);
    append_optional_id(&mut path, "item_id", item_id);
    let wire = match purpose {
        Some(p) => Some(p.as_wire()),
        None => None,
    };
    append_optional_raw(&mut path, "purpose", wire);
    append_optional_raw(&mut path, "cursor", cursor);
    path
}

} // verus!

verus! {

/// Every parameter of `spec_page_path` whose value is given is sent: inventory_owner_id, facility_id, item_id, cursor.
pub proof fn lemma_page_path_sends_what_is_set(inventory_owner_id: Option<i64>, facility_id: Option<i64>, item_id: Option<i64>, purpose: Option<StorageZonePurpose>, status: ItemStoragePolicyStatus, cursor: Option<Seq<char>>,)
    ensures
        ({
            let path = spec_page_path(inventory_owner_id, facility_id, item_id, purpose, status, cursor);
            &&& (inventory_owner_id) matches Some(v) ==> crate::url::has_param(path, "inventory_owner_id"@, crate::text::decimal(v as int))
            &&& (facility_id) matches Some(v) ==> crate::url::has_param(path, "facility_id"@, crate::text::decimal(v as int))
            &&& (item_id) matches Some(v) ==> crate::url::has_param(path, "item_id"@, crate::text::decimal(v as int))
            &&& (cursor) matches Some(v) ==> crate::url::has_param(path, "cursor"@, v)
        }),
{
    broadcast use crate::url::lemma_contains_appended, crate::url::lemma_contains_extended, crate::url::lemma_contains_prefix;

}

} // verus!
