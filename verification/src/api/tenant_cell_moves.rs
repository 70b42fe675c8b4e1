//! Paths of tenant moves between data cells.
use vstd::prelude::*;
use crate::contract::TenantCellMoveStatus;
use crate::text::{decimal, push_count, push_i64};
use crate::url::{
    append_optional_encoded, append_optional_id, append_optional_raw, opt_as_str,
    opt_encoded_param, opt_id_param, opt_raw_param, opt_string_view,
};

verus! {

/// One page request of tenant cell moves.
#[derive(Clone)]
pub struct TenantCellMovePageRequest {
    pub tenant_id: Option<i64>,
    pub data_cell_id: Option<i64>,
    pub status: Option<TenantCellMoveStatus>,
    pub cursor: Option<String>,
    pub limit: u16,
}

/// One page request of a move's events.
#[derive(Clone)]
pub struct TenantCellMoveEventPageRequest {
    pub cursor: Option<String>,
    pub limit: u16,
}

/// The path of one page of tenant cell moves.
pub open spec fn spec_page_path(request: TenantCellMovePageRequest) -> Seq<char> {
    "/api/v1/platform/tenant-cell-moves?limit="@ + decimal(request.limit as int) + opt_id_param(
        "tenant_id"@,
        request.tenant_id,
    ) + opt_id_param("data_cell_id"@, request.data_cell_id) + opt_raw_param(
        "status"@,
        match request.status {
            Some(s) => Some(s.wire()),
            None => None,
        },
    ) + opt_encoded_param("cursor"@, opt_string_view(request.cursor))
}

/// Builds the path of one page of tenant cell moves.
pub fn page_path(request: &TenantCellMovePageRequest) -> (r: String)
    ensures
        r@ == spec_page_path(*request),
{
    let mut path = String::from_str("/api/v1/platform/tenant-cell-moves?limit=");
    push_count(&mut path, request.limit as u64);
    append_optional_id(&mut path, "tenant_id", request.tenant_id);
    append_optional_id(&mut path, "data_cell_id", request.data_cell_id);
    let wire = match request.status {
        Some(s) => Some(s.as_wire()),
        None => None,
    };
    append_optional_raw(&mut path, "status", wire);
    append_optional_encoded(&mut path, "cursor", opt_as_str(&request.cursor));
    path
}

/// Builds the path of one page of a move's events.
pub fn event_path(id: i64, request: &TenantCellMoveEventPageRequest) -> (r: String)
    ensures
        r@ == "/api/v1/platform/tenant-cell-moves/"@ + decimal(id as int) + "/events?limit="@
            + decimal(request.limit as int) + opt_encoded_param(
            "cursor"@,
            opt_string_view(request.cursor),
        ),
{
    let mut path = String::from_str("/api/v1/platform/tenant-cell-moves/");
    push_i64(&mut path, id);
    path.append("/events?limit=");
    push_count(&mut path, request.limit as u64);
    append_optional_encoded(&mut path, "cursor", opt_as_str(&request.cursor));
    path
}

} // verus!

verus! {

/// Every parameter of `spec_page_path` whose value is given is sent: tenant_id, data_cell_id, cursor.
pub proof fn lemma_page_path_sends_what_is_set(request: TenantCellMovePageRequest)
    ensures
        ({
            let path = spec_page_path(request);
            &&& (request.tenant_id) matches Some(v) ==> crate::url::has_param(path, "tenant_id"@, crate::text::decimal(v as int))
            &&& (request.data_cell_id) matches Some(v) ==> crate::url::has_param(path, "data_cell_id"@, crate::text::decimal(v as int))
            &&& (opt_string_view(request.cursor)) matches Some(v) ==> crate::url::has_param(path, "cursor"@, crate::url::url_encoded(v))
        }),
{
    broadcast use crate::url::lemma_contains_appended, crate::url::lemma_contains_extended, crate::url::lemma_contains_prefix;

}

} // verus!
