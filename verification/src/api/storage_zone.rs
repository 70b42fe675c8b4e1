//! Paths of storage zones.
use vstd::prelude::*;
use crate::contract::{StorageZonePurpose, StorageZoneStatus};
use crate::url::{
    append_optional_id, append_optional_raw, opt_id_param, opt_raw_param, opt_str_view,
};

verus! {

/// The path of one page of storage zones.
pub open spec fn spec_page_path(
    facility_id: Option<i64>,
    purpose: Option<StorageZonePurpose>,
    status: Option<StorageZoneStatus>,
    cursor: Option<Seq<char>>,
) -> Seq<char> {
    "/api/v1/storage-zones?limit=100"@ + opt_id_param("facility_id"@, facility_id) + opt_raw_param(
        "purpose"@,
        match purpose {
            Some(p) => Some(p.wire()),
            None => None,
        },
    ) + opt_raw_param(
        "status"@,
        match status {
            Some(s) => Some(s.wire()),
            None => None,
        },
    ) + opt_raw_param("cursor"@, cursor)
}

/// Builds the path of one page of storage zones; the cursor is passed as it is.
pub fn page_path(
    facility_id: Option<i64>,
    purpose: Option<StorageZonePurpose>,
    status: Option<StorageZoneStatus>,
    cursor: Option<&str>,
) -> (r: String)
    ensures
        r@ == spec_page_path(facility_id, purpose, status, opt_str_view(cursor)),
{
    let mut path = String::from_str("/api/v1/storage-zones?limit=100");
    append_optional_id(&mut path, "facility_id", facility_id);
    let p = match purpose {
        Some(p) => Some(p.as_wire()),
        None => None,
    };
    append_optional_raw(&mut path, "purpose", p);
    let s = match status {
        Some(s) => Some(s.as_wire()),
        None => None,
    };
    append_optional_raw(&mut path, "status", s);
    append_optional_raw(&mut path, "cursor", cursor);
    path
}

} // verus!

verus! {

/// Every parameter of `spec_page_path` whose value is given is sent: facility_id, cursor.
pub proof fn lemma_page_path_sends_what_is_set(facility_id: Option<i64>, purpose: Option<StorageZonePurpose>, status: Option<StorageZoneStatus>, cursor: Option<Seq<char>>,)
    ensures
        ({
            let path = spec_page_path(facility_id, purpose, status, cursor);
            &&& (facility_id) matches Some(v) ==> crate::url::has_param(path, "facility_id"@, crate::text::decimal(v as int))
            &&& (cursor) matches Some(v) ==> crate::url::has_param(path, "cursor"@, v)
        }),
{
    broadcast use crate::url::lemma_contains_appended, crate::url::lemma_contains_extended, crate::url::lemma_contains_prefix;

}

} // verus!
