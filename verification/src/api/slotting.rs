//! Paths of slotting profiles and recommendations.
use vstd::prelude::*;
use crate::contract::SlottingRecommendationStatus;
use crate::text::{bool_text, decimal, push_bool, push_count};
use crate::url::{
    append_optional_encoded, append_optional_id, append_optional_raw, opt_as_str,
    opt_encoded_param, opt_id_param, opt_raw_param, opt_string_view,
};

verus! {

/// One page request of slotting profiles.
#[derive(Clone)]
pub struct SlottingProfilePageRequest {
    pub inventory_owner_id: Option<i64>,
    pub facility_id: Option<i64>,
    pub include_history: bool,
    pub cursor: Option<String>,
    pub limit: u16,
}

/// One page request of slotting recommendations.
#[derive(Clone)]
pub struct SlottingRecommendationPageRequest {
    pub inventory_owner_id: Option<i64>,
    pub facility_id: Option<i64>,
    pub slotting_run_id: Option<i64>,
    pub status: Option<SlottingRecommendationStatus>,
    pub cursor: Option<String>,
    pub limit: u16,
}

/// The client and facility scope parameters.
pub open spec fn spec_scope(inventory_owner_id: Option<i64>, facility_id: Option<i64>) -> Seq<
    char,
> {
    opt_id_param("inventory_owner_id"@, inventory_owner_id) + opt_id_param(
        "facility_id"@,
        facility_id,
    )
}

/// Appends the client and facility that are set.
pub fn append_scope(path: &mut String, inventory_owner_id: Option<i64>, facility_id: Option<i64>)
    ensures
        final(path)@ == old(path)@ + spec_scope(inventory_owner_id, facility_id),
{
    append_optional_id(path, "inventory_owner_id", inventory_owner_id);
    append_optional_id(path, "facility_id", facility_id);
    assert(path@ =~= old(path)@ + spec_scope(inventory_owner_id, facility_id));
}

/// Builds the path of one page of slotting profiles.
pub fn profile_page_path(request: &SlottingProfilePageRequest) -> (r: String)
    ensures
        r@ == "/api/v1/slotting/profiles?limit="@ + decimal(request.limit as int)
            + "&include_history="@ + bool_text(request.include_history) + spec_scope(
            request.inventory_owner_id,
            request.facility_id,
        ) + opt_encoded_param("cursor"@, opt_string_view(request.cursor)),
{
    let mut path = String::from_str("/api/v1/slotting/profiles?limit=");
    push_count(&mut path, request.limit as u64);
    path.append("&include_history=");
    push_bool(&mut path, request.include_history);
    append_scope(&mut path, request.inventory_owner_id, request.facility_id);
    append_optional_encoded(&mut path, "cursor", opt_as_str(&request.cursor));
    path
}

/// The path of one page of slotting recommendations.
pub open spec fn spec_recommendation_page_path(request: SlottingRecommendationPageRequest) -> Seq<
    char,
> {
    "/api/v1/slotting/recommendations?limit="@ + decimal(request.limit as int) + spec_scope(
        request.inventory_owner_id,
        request.facility_id,
    ) + opt_id_param("slotting_run_id"@, request.slotting_run_id) + opt_raw_param(
        "status"@,
        match request.status {
            Some(s) => Some(s.wire()),
            None => None,
        },
    ) + opt_encoded_param("cursor"@, opt_string_view(request.cursor))
}

/// Builds the path of one page of slotting recommendations, binding the run
/// and the decision state.
pub fn recommendation_page_path(request: &SlottingRecommendationPageRequest) -> (r: String)
    ensures
        r@ == spec_recommendation_page_path(*request),
{
    let mut path = String::from_str("/api/v1/slotting/recommendations?limit=");
    push_count(&mut path, request.limit as u64);
    append_scope(&mut path, request.inventory_owner_id, request.facility_id);
    append_optional_id(&mut path, "slotting_run_id", request.slotting_run_id);
    let wire = match request.status {
        Some(s) => Some(s.as_wire()),
        None => None,
    };
    append_optional_raw(&mut path, "status", wire);
    append_optional_encoded(&mut path, "cursor", opt_as_str(&request.cursor));
    path
}

} // verus!

verus! {

/// Every parameter of `spec_scope` whose value is given is sent: inventory_owner_id, facility_id.
pub proof fn lemma_scope_sends_what_is_set(inventory_owner_id: Option<i64>, facility_id: Option<i64>)
    ensures
        ({
            let path = spec_scope(inventory_owner_id, facility_id);
            &&& (inventory_owner_id) matches Some(v) ==> crate::url::has_param(path, "inventory_owner_id"@, crate::text::decimal(v as int))
            &&& (facility_id) matches Some(v) ==> crate::url::has_param(path, "facility_id"@, crate::text::decimal(v as int))
        }),
{
    broadcast use crate::url::lemma_contains_appended, crate::url::lemma_contains_extended, crate::url::lemma_contains_prefix;

}

/// Every parameter of `spec_recommendation_page_path` whose value is given is sent: slotting_run_id, cursor.
pub proof fn lemma_recommendation_page_path_sends_what_is_set(request: SlottingRecommendationPageRequest)
    ensures
        ({
            let path = spec_recommendation_page_path(request);
            &&& (request.slotting_run_id) matches Some(v) ==> crate::url::has_param(path, "slotting_run_id"@, crate::text::decimal(v as int))
            &&& (opt_string_view(request.cursor)) matches Some(v) ==> crate::url::has_param(path, "cursor"@, crate::url::url_encoded(v))
        }),
{
    broadcast use crate::url::lemma_contains_appended, crate::url::lemma_contains_extended, crate::url::lemma_contains_prefix;

}

} // verus!
