//! Paths of pick waves.
use vstd::prelude::*;
use crate::contract::{PickWaveSort, PickWaveSortDirection, PickWaveStatus};
use crate::url::{
    append_optional_encoded, append_optional_id, append_optional_raw, opt_encoded_param,
    opt_id_param, opt_raw_param, opt_str_view,
};

verus! {

/// The path of one page of pick waves.
pub open spec fn spec_pick_wave_page_path(
    facility_id: Option<i64>,
    status: Option<PickWaveStatus>,
    sort: PickWaveSort,
    direction: PickWaveSortDirection,
    cursor: Option<Seq<char>>,
) -> Seq<char> {
    "/api/v1/pick-waves?limit=100&sort="@ + sort.wire() + "&direction="@ + direction.wire()
        + opt_id_param("facility_id"@, facility_id) + opt_raw_param(
        "status"@,
        match status {
            Some(s) => Some(s.wire()),
            None => None,
        },
    ) + opt_encoded_param("cursor"@, cursor)
}

/// Builds the path of one page of pick waves, sorted on the server.
pub fn pick_wave_page_path(
    facility_id: Option<i64>,
    status: Option<PickWaveStatus>,
    sort: PickWaveSort,
    direction: PickWaveSortDirection,
    cursor: Option<&str>,
) -> (r: String)
    ensures
        r@ == spec_pick_wave_page_path(facility_id, status, sort, direction, opt_str_view(cursor)),
{
    let mut path = String::from_str("/api/v1/pick-waves?limit=100&sort=");
    path.append(sort.as_wire());
    path.append("&direction=");
    path.append(direction.as_wire());
    append_optional_id(&mut path, "facility_id", facility_id);
    let wire = match status {
        Some(s) => Some(s.as_wire()),
        None => None,
    };
    append_optional_raw(&mut path, "status", wire);
    append_optional_encoded(&mut path, "cursor", cursor);
    path
}

} // verus!

verus! {

/// Every parameter of `spec_pick_wave_page_path` whose value is given is sent: facility_id, cursor.
pub proof fn lemma_pick_wave_page_path_sends_what_is_set(facility_id: Option<i64>, status: Option<PickWaveStatus>, sort: PickWaveSort, direction: PickWaveSortDirection, cursor: Option<Seq<char>>,)
    ensures
        ({
            let path = spec_pick_wave_page_path(facility_id, status, sort, direction, cursor);
            &&& (facility_id) matches Some(v) ==> crate::url::has_param(path, "facility_id"@, crate::text::decimal(v as int))
            &&& (cursor) matches Some(v) ==> crate::url::has_param(path, "cursor"@, crate::url::url_encoded(v))
        }),
{
    broadcast use crate::url::lemma_contains_appended, crate::url::lemma_contains_extended, crate::url::lemma_contains_prefix;

}

} // verus!
