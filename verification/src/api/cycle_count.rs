//! Paths of cycle-count candidates and work.
use vstd::prelude::*;
use crate::contract::{
    CycleCountCandidateSort, CycleCountSortDirection, CycleCountWorkSort, CycleCountWorkStatus,
    InventoryBalanceStatus,
};
use crate::url::{
    append_optional_encoded, append_optional_id, append_optional_raw, opt_encoded_param,
    opt_id_param, opt_raw_param, opt_str_view,
};

verus! {

/// The scope and cursor parameters shared by both cycle-count listings.
pub open spec fn spec_common(
    facility_id: Option<i64>,
    inventory_owner_id: Option<i64>,
    cursor: Option<Seq<char>>,
) -> Seq<char> {
    opt_id_param("facility_id"@, facility_id) + opt_id_param(
        "inventory_owner_id"@,
        inventory_owner_id,
    ) + opt_encoded_param("cursor"@, cursor)
}

/// Appends the facility, client and percent-encoded cursor that are set.
pub fn append_common(
    path: &mut String,
    facility_id: Option<i64>,
    inventory_owner_id: Option<i64>,
    cursor: Option<&str>,
)
    ensures
        final(path)@ == old(path)@ + spec_common(facility_id, inventory_owner_id, opt_str_view(cursor)),
{
    append_optional_id(path, "facility_id", facility_id);
    append_optional_id(path, "inventory_owner_id", inventory_owner_id);
    append_optional_encoded(path, "cursor", cursor);
    assert(path@ =~= old(path)@ + spec_common(facility_id, inventory_owner_id, opt_str_view(cursor)));
}

/// The path of one page of cycle-count candidates.
pub open spec fn spec_candidate_page_path(
    facility_id: Option<i64>,
    inventory_owner_id: Option<i64>,
    inventory_status: Option<InventoryBalanceStatus>,
    sort: CycleCountCandidateSort,
    direction: CycleCountSortDirection,
    cursor: Option<Seq<char>>,
) -> Seq<char> {
    "/api/v1/cycle-count-candidates?limit=100&sort="@ + sort.wire() + "&direction="@
        + direction.wire() + spec_common(facility_id, inventory_owner_id, cursor) + opt_raw_param(
        "inventory_status"@,
        match inventory_status {
            Some(s) => Some(s.wire()),
            None => None,
        },
    )
}

/// Builds the path of one page of cycle-count candidates, sorted on the server.
pub fn candidate_page_path(
    facility_id: Option<i64>,
    inventory_owner_id: Option<i64>,
    inventory_status: Option<InventoryBalanceStatus>,
    sort: CycleCountCandidateSort,
    direction: CycleCountSortDirection,
    cursor: Option<&str>,
) -> (r: String)
    ensures
        r@ == spec_candidate_page_path(
            facility_id,
            inventory_owner_id,
            inventory_status,
            sort,
            direction,
            opt_str_view(cursor),
        ),
{
    let mut path = String::from_str("/api/v1/cycle-count-candidates?limit=100&sort=");
    path.append(sort.as_wire());
    path.append("&direction=");
    path.append(direction.as_wire());
    append_common(&mut path, facility_id, inventory_owner_id, cursor);
    let status = match inventory_status {
        Some(s) => Some(s.as_wire()),
        None => None,
    };
    append_optional_raw(&mut path, "inventory_status", status);
    path
}

/// The path of one page of cycle-count work.
pub open spec fn spec_work_page_path(
    facility_id: Option<i64>,
    inventory_owner_id: Option<i64>,
    status: Option<CycleCountWorkStatus>,
    sort: CycleCountWorkSort,
    direction: CycleCountSortDirection,
    cursor: Option<Seq<char>>,
) -> Seq<char> {
    "/api/v1/cycle-count-tasks?limit=100&sort="@ + sort.wire() + "&direction="@ + direction.wire()
        + spec_common(facility_id, inventory_owner_id, cursor) + opt_raw_param(
        "status"@,
        match status {
            Some(s) => Some(s.wire()),
            None => None,
        },
    )
}

/// Builds the path of one page of cycle-count work; a history status is
/// bound explicitly.
pub fn work_page_path(
    facility_id: Option<i64>,
    inventory_owner_id: Option<i64>,
    status: Option<CycleCountWorkStatus>,
    sort: CycleCountWorkSort,
    direction: CycleCountSortDirection,
    cursor: Option<&str>,
) -> (r: String)
    ensures
        r@ == spec_work_page_path(
            facility_id,
            inventory_owner_id,
            status,
            sort,
            direction,
            opt_str_view(cursor),
        ),
{
    let mut path = String::from_str("/api/v1/cycle-count-tasks?limit=100&sort=");
    path.append(sort.as_wire());
    path.append("&direction=");
    path.append(direction.as_wire());
    append_common(&mut path, facility_id, inventory_owner_id, cursor);
    let wire = match status {
        Some(s) => Some(s.as_wire()),
        None => None,
    };
    append_optional_raw(&mut path, "status", wire);
    path
}

} // verus!

verus! {

/// Every parameter of `spec_common` whose value is given is sent: facility_id, inventory_owner_id, cursor.
pub proof fn lemma_common_sends_what_is_set(facility_id: Option<i64>, inventory_owner_id: Option<i64>, cursor: Option<Seq<char>>,)
    ensures
        ({
            let path = spec_common(facility_id, inventory_owner_id, cursor);
            &&& (facility_id) matches Some(v) ==> crate::url::has_param(path, "facility_id"@, crate::text::decimal(v as int))
            &&& (inventory_owner_id) matches Some(v) ==> crate::url::has_param(path, "inventory_owner_id"@, crate::text::decimal(v as int))
            &&& (cursor) matches Some(v) ==> crate::url::has_param(path, "cursor"@, crate::url::url_encoded(v))
        }),
{
    broadcast use crate::url::lemma_contains_appended, crate::url::lemma_contains_extended, crate::url::lemma_contains_prefix;

}

} // verus!
