//! Paths of putaway candidates and work.
use vstd::prelude::*;
use crate::contract::{
    PutawayCandidateSort, PutawaySortDirection, PutawayWorkSort, PutawayWorkStatus,
    PutawayWorkflow,
};
use crate::url::{
    append_optional_encoded, append_optional_id, append_optional_raw, opt_encoded_param,
    opt_id_param, opt_raw_param, opt_str_view,
};

verus! {

/// The filters shared by both putaway listings, then the cursor.
pub open spec fn spec_filters(
    facility_id: Option<i64>,
    inventory_owner_id: Option<i64>,
    workflow: Option<PutawayWorkflow>,
    cursor: Option<Seq<char>>,
) -> Seq<char> {
    opt_id_param("facility_id"@, facility_id) + opt_id_param(
        "inventory_owner_id"@,
        inventory_owner_id,
    ) + opt_raw_param(
        "workflow"@,
        match workflow {
            Some(w) => Some(w.wire()),
            None => None,
        },
    ) + opt_encoded_param("cursor"@, cursor)
}

/// Appends the facility, client, workflow and percent-encoded cursor that are set.
pub fn append_filters(
    path: &mut String,
    facility_id: Option<i64>,
    inventory_owner_id: Option<i64>,
    workflow: Option<PutawayWorkflow>,
    cursor: Option<&str>,
)
    ensures
        final(path)@ == old(path)@ + spec_filters(
            facility_id,
            inventory_owner_id,
            workflow,
            opt_str_view(cursor),
        ),
{
    append_optional_id(path, "facility_id", facility_id);
    append_optional_id(path, "inventory_owner_id", inventory_owner_id);
    let wire = match workflow {
        Some(w) => Some(w.as_wire()),
        None => None,
    };
    append_optional_raw(path, "workflow", wire);
    append_optional_encoded(path, "cursor", cursor);
    assert(path@ =~= old(path)@ + spec_filters(
        facility_id,
        inventory_owner_id,
        workflow,
        opt_str_view(cursor),
    ));
}

/// Builds the path of one page of putaway candidates, sorted on the server.
pub fn candidate_page_path(
    facility_id: Option<i64>,
    inventory_owner_id: Option<i64>,
    workflow: Option<PutawayWorkflow>,
    sort: PutawayCandidateSort,
    direction: PutawaySortDirection,
    cursor: Option<&str>,
) -> (r: String)
    ensures
        r@ == "/api/v1/putaway-candidates?limit=100&sort="@ + sort.wire() + "&direction="@
            + direction.wire() + spec_filters(
            facility_id,
            inventory_owner_id,
            workflow,
            opt_str_view(cursor),
        ),
{
    let mut path = String::from_str("/api/v1/putaway-candidates?limit=100&sort=");
    path.append(sort.as_wire());
    path.append("&direction=");
    path.append(direction.as_wire());
    append_filters(&mut path, facility_id, inventory_owner_id, workflow, cursor);
    path
}

/// Builds the path of one page of putaway work, with its lifecycle status
/// last.
pub fn work_page_path(
    facility_id: Option<i64>,
    inventory_owner_id: Option<i64>,
    workflow: Option<PutawayWorkflow>,
    status: Option<PutawayWorkStatus>,
    sort: PutawayWorkSort,
    direction: PutawaySortDirection,
    cursor: Option<&str>,
) -> (r: String)
    ensures
        r@ == "/api/v1/putaway-tasks?limit=100&sort="@ + sort.wire() + "&direction="@
            + direction.wire() + spec_filters(
            facility_id,
            inventory_owner_id,
            workflow,
            opt_str_view(cursor),
        ) + opt_raw_param(
            "status"@,
            match status {
                Some(s) => Some(s.wire()),
                None => None,
            },
        ),
{
    let mut path = String::from_str("/api/v1/putaway-tasks?limit=100&sort=");
    path.append(sort.as_wire());
    path.append("&direction=");
    path.append(direction.as_wire());
    append_filters(&mut path, facility_id, inventory_owner_id, workflow, cursor);
    let wire = match status {
        Some(s) => Some(s.as_wire()),
        None => None,
    };
    append_optional_raw(&mut path, "status", wire);
    path
}

} // verus!

verus! {

/// Every parameter of `spec_filters` whose value is given is sent: facility_id, inventory_owner_id, cursor.
pub proof fn lemma_filters_sends_what_is_set(facility_id: Option<i64>, inventory_owner_id: Option<i64>, workflow: Option<PutawayWorkflow>, cursor: Option<Seq<char>>,)
    ensures
        ({
            let path = spec_filters(facility_id, inventory_owner_id, workflow, cursor);
            &&& (facility_id) matches Some(v) ==> crate::url::has_param(path, "facility_id"@, crate::text::decimal(v as int))
            &&& (inventory_owner_id) matches Some(v) ==> crate::url::has_param(path, "inventory_owner_id"@, crate::text::decimal(v as int))
            &&& (cursor) matches Some(v) ==> crate::url::has_param(path, "cursor"@, crate::url::url_encoded(v))
        }),
{
    broadcast use crate::url::lemma_contains_appended, crate::url::lemma_contains_extended, crate::url::lemma_contains_prefix;

}

} // verus!
