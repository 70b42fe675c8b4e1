//! Paths of tenant lifecycle administration.
use vstd::prelude::*;
use crate::contract::TenantStatus;
use crate::text::{decimal, push_count, push_i64};
use crate::url::{
    append_optional_encoded, append_optional_raw, opt_as_str, opt_encoded_param, opt_raw_param,
    opt_string_view,
};

verus! {

/// One page request of tenants.
#[derive(Clone)]
pub struct TenantLifecyclePageRequest {
    pub status: Option<TenantStatus>,
    pub search: Option<String>,
    pub cursor: Option<String>,
    pub limit: u16,
}

/// One page request of a tenant's lifecycle events.
#[derive(Clone)]
pub struct TenantLifecycleEventPageRequest {
    pub cursor: Option<String>,
    pub limit: u16,
}

/// The path of one page of tenants.
pub open spec fn spec_page_path(request: TenantLifecyclePageRequest) -> Seq<char> {
    "/api/v1/platform/tenants?limit="@ + decimal(request.limit as int) + opt_raw_param(
        "status"@,
        match request.status {
            Some(s) => Some(s.wire()),
            None => None,
        },
    ) + opt_encoded_param("search"@, opt_string_view(request.search)) + opt_encoded_param(
        "cursor"@,
        opt_string_view(request.cursor),
    )
}

/// Builds the path of one page of tenants; search and cursor are
/// percent-encoded.
pub fn page_path(request: &TenantLifecyclePageRequest) -> (r: String)
    ensures
        r@ == spec_page_path(*request),
{
    let mut path = String::from_str("/api/v1/platform/tenants?limit=");
    push_count(&mut path, request.limit as u64);
    let wire = match request.status {
        Some(s) => Some(s.as_wire()),
        None => None,
    };
    append_optional_raw(&mut path, "status", wire);
    append_optional_encoded(&mut path, "search", opt_as_str(&request.search));
    append_optional_encoded(&mut path, "cursor", opt_as_str(&request.cursor));
    path
}

/// Builds the path of one page of a tenant's lifecycle events.
pub fn event_page_path(id: i64, request: &TenantLifecycleEventPageRequest) -> (r: String)
    ensures
        r@ == "/api/v1/platform/tenants/"@ + decimal(id as int) + "/events?limit="@ + decimal(
            request.limit as int,
        ) + opt_encoded_param("cursor"@, opt_string_view(request.cursor)),
{
    let mut path = String::from_str("/api/v1/platform/tenants/");
    push_i64(&mut path, id);
    path.append("/events?limit=");
    push_count(&mut path, request.limit as u64);
    append_optional_encoded(&mut path, "cursor", opt_as_str(&request.cursor));
    path
}

} // verus!

verus! {

/// Every parameter of `spec_page_path` whose value is given is sent: search, cursor.
pub proof fn lemma_page_path_sends_what_is_set(request: TenantLifecyclePageRequest)
    ensures
        ({
            let path = spec_page_path(request);
            &&& (opt_string_view(request.search)) matches Some(v) ==> crate::url::has_param(path, "search"@, crate::url::url_encoded(v))
            &&& (opt_string_view(request.cursor)) matches Some(v) ==> crate::url::has_param(path, "cursor"@, crate::url::url_encoded(v))
        }),
{
    broadcast use crate::url::lemma_contains_appended, crate::url::lemma_contains_extended, crate::url::lemma_contains_prefix;

}

} // verus!
