//! Paths of the labor workspace, roster and reference candidates.
use vstd::prelude::*;
use crate::contract::{LaborActivityKind, LaborQuantityBasis};
use crate::text::{bool_text, decimal, push_bool, push_count, push_i64};
use crate::url::{
    append_optional_encoded, append_optional_id, opt_as_str, opt_encoded_param, opt_id_param,
    opt_string_view,
};

verus! {

/// Scope and window of the labor workspace.
#[derive(Clone, Default)]
pub struct LaborFilters {
    pub facility_id: Option<i64>,
    pub inventory_owner_id: Option<i64>,
    pub employee_id: Option<i64>,
    pub from: Option<String>,
    pub until: Option<String>,
    pub include_history: bool,
}

/// One page request of the labor roster.
#[derive(Clone)]
pub struct LaborRosterPageRequest {
    pub facility_id: i64,
    pub inventory_owner_id: Option<i64>,
    pub limit: u16,
    pub cursor: Option<String>,
}

/// One page request of labor reference candidates.
#[derive(Clone)]
pub struct LaborReferenceCandidatePageRequest {
    pub facility_id: i64,
    pub inventory_owner_id: Option<i64>,
    pub employee_id: i64,
    pub activity_kind: LaborActivityKind,
    pub quantity_basis: LaborQuantityBasis,
    pub limit: u16,
    pub cursor: Option<String>,
}

/// The path of the labor workspace.
pub open spec fn spec_workspace_path(filters: LaborFilters) -> Seq<char> {
    "/api/v1/labor/workspace?include_history="@ + bool_text(filters.include_history)
        + opt_id_param("facility_id"@, filters.facility_id) + opt_id_param(
        "inventory_owner_id"@,
        filters.inventory_owner_id,
    ) + opt_id_param("employee_id"@, filters.employee_id) + opt_encoded_param(
        "from"@,
        opt_string_view(filters.from),
    ) + opt_encoded_param("until"@, opt_string_view(filters.until))
}

/// Builds the path of the labor workspace; without dates the server's
/// default window applies.
pub fn workspace_path(filters: &LaborFilters) -> (r: String)
    ensures
        r@ == spec_workspace_path(*filters),
{
    let mut path = String::from_str("/api/v1/labor/workspace?include_history=");
    push_bool(&mut path, filters.include_history);
    append_optional_id(&mut path, "facility_id", filters.facility_id);
    append_optional_id(&mut path, "inventory_owner_id", filters.inventory_owner_id);
    append_optional_id(&mut path, "employee_id", filters.employee_id);
    append_optional_encoded(&mut path, "from", opt_as_str(&filters.from));
    append_optional_encoded(&mut path, "until", opt_as_str(&filters.until));
    path
}

/// Builds the path of one page of the labor roster.
pub fn roster_path(request: &LaborRosterPageRequest) -> (r: String)
    ensures
        r@ == "/api/v1/labor/roster?facility_id="@ + decimal(request.facility_id as int)
            + "&limit="@ + decimal(request.limit as int) + opt_id_param(
            "inventory_owner_id"@,
            request.inventory_owner_id,
        ) + opt_encoded_param("cursor"@, opt_string_view(request.cursor)),
{
    let mut path = String::from_str("/api/v1/labor/roster?facility_id=");
    push_i64(&mut path, request.facility_id);
    path.append("&limit=");
    push_count(&mut path, request.limit as u64);
    append_optional_id(&mut path, "inventory_owner_id", request.inventory_owner_id);
    append_optional_encoded(&mut path, "cursor", opt_as_str(&request.cursor));
    path
}

/// The path of one page of labor reference candidates.
pub open spec fn spec_reference_candidates_path(request: LaborReferenceCandidatePageRequest) -> Seq<
    char,
> {
    "/api/v1/labor/reference-candidates?facility_id="@ + decimal(request.facility_id as int)
        + "&employee_id="@ + decimal(request.employee_id as int) + "&activity_kind="@
        + request.activity_kind.wire() + "&quantity_basis="@ + request.quantity_basis.wire()
        + "&limit="@ + decimal(request.limit as int) + opt_id_param(
        "inventory_owner_id"@,
        request.inventory_owner_id,
    ) + opt_encoded_param("cursor"@, opt_string_view(request.cursor))
}

/// Builds the path of one page of labor reference candidates.
pub fn reference_candidates_path(request: &LaborReferenceCandidatePageRequest) -> (r: String)
    ensures
        r@ == spec_reference_candidates_path(*request),
{
    let mut path = String::from_str("/api/v1/labor/reference-candidates?facility_id=");
    push_i64(&mut path, request.facility_id);
    path.append("&employee_id=");
    push_i64(&mut path, request.employee_id);
    path.append("&activity_kind=");
    path.append(request.activity_kind.as_wire());
    path.append("&quantity_basis=");
    path.append(request.quantity_basis.as_wire());
    path.append("&limit=");
    push_count(&mut path, request.limit as u64);
    append_optional_id(&mut path, "inventory_owner_id", request.inventory_owner_id);
    append_optional_encoded(&mut path, "cursor", opt_as_str(&request.cursor));
    path
}

} // verus!

verus! {

/// Every parameter of `spec_workspace_path` whose value is given is sent: facility_id, inventory_owner_id, employee_id, from, until.
pub proof fn lemma_workspace_path_sends_what_is_set(filters: LaborFilters)
    ensures
        ({
            let path = spec_workspace_path(filters);
            &&& (filters.facility_id) matches Some(v) ==> crate::url::has_param(path, "facility_id"@, crate::text::decimal(v as int))
            &&& (filters.inventory_owner_id) matches Some(v) ==> crate::url::has_param(path, "inventory_owner_id"@, crate::text::decimal(v as int))
            &&& (filters.employee_id) matches Some(v) ==> crate::url::has_param(path, "employee_id"@, crate::text::decimal(v as int))
            &&& (opt_string_view(filters.from)) matches Some(v) ==> crate::url::has_param(path, "from"@, crate::url::url_encoded(v))
            &&& (opt_string_view(filters.until)) matches Some(v) ==> crate::url::has_param(path, "until"@, crate::url::url_encoded(v))
        }),
{
    broadcast use crate::url::lemma_contains_appended, crate::url::lemma_contains_extended, crate::url::lemma_contains_prefix;

}

/// Every parameter of `spec_reference_candidates_path` whose value is given is sent: inventory_owner_id, cursor.
pub proof fn lemma_reference_candidates_path_sends_what_is_set(request: LaborReferenceCandidatePageRequest)
    ensures
        ({
            let path = spec_reference_candidates_path(request);
            &&& (request.inventory_owner_id) matches Some(v) ==> crate::url::has_param(path, "inventory_owner_id"@, crate::text::decimal(v as int))
            &&& (opt_string_view(request.cursor)) matches Some(v) ==> crate::url::has_param(path, "cursor"@, crate::url::url_encoded(v))
        }),
{
    broadcast use crate::url::lemma_contains_appended, crate::url::lemma_contains_extended, crate::url::lemma_contains_prefix;

}

} // verus!
