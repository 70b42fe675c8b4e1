//! Paths of platform data cells.
use vstd::prelude::*;
use crate::contract::DataCellStatus;
use crate::text::{decimal, push_count, push_i64};
use crate::url::{
    append_optional_encoded, append_optional_raw, opt_as_str, opt_encoded_param, opt_raw_param,
    opt_string_view,
};

verus! {

/// One page request of the data cell list.
#[derive(Clone)]
pub struct DataCellPageRequest {
    pub status: Option<DataCellStatus>,
    pub region: Option<String>,
    pub cursor: Option<String>,
    pub limit: u16,
}

/// One page request of a data cell's events.
#[derive(Clone)]
pub struct DataCellEventPageRequest {
    pub cursor: Option<String>,
    pub limit: u16,
}

/// The path of one page of data cells.
pub open spec fn spec_page_path(request: DataCellPageRequest) -> Seq<char> {
    "/api/v1/platform/data-cells?limit="@ + decimal(request.limit as int) + opt_raw_param(
        "status"@,
        match request.status {
            Some(s) => Some(s.wire()),
            None => None,
        },
    ) + opt_encoded_param("region"@, opt_string_view(request.region)) + opt_encoded_param(
        "cursor"@,
        opt_string_view(request.cursor),
    )
}

/// Builds the path of one page of data cells; region and cursor are
/// percent-encoded.
pub fn page_path(request: &DataCellPageRequest) -> (r: String)
    ensures
        r@ == spec_page_path(*request),
{
    let mut path = String::from_str("/api/v1/platform/data-cells?limit=");
    push_count(&mut path, request.limit as u64);
    let status = match request.status {
        Some(s) => Some(s.as_wire()),
        None => None,
    };
    append_optional_raw(&mut path, "status", status);
    append_optional_encoded(&mut path, "region", opt_as_str(&request.region));
    append_optional_encoded(&mut path, "cursor", opt_as_str(&request.cursor));
    path
}

/// Builds the path of one page of a data cell's events.
pub fn event_path(id: i64, request: &DataCellEventPageRequest) -> (r: String)
    ensures
        r@ == "/api/v1/platform/data-cells/"@ + decimal(id as int) + "/events?limit="@ + decimal(
            request.limit as int,
        ) + opt_encoded_param("cursor"@, opt_string_view(request.cursor)),
{
    let mut path = String::from_str("/api/v1/platform/data-cells/");
    push_i64(&mut path, id);
    path.append("/events?limit=");
    push_count(&mut path, request.limit as u64);
    append_optional_encoded(&mut path, "cursor", opt_as_str(&request.cursor));
    path
}

} // verus!

verus! {

/// Every parameter of `spec_page_path` whose value is given is sent: region, cursor.
pub proof fn lemma_page_path_sends_what_is_set(request: DataCellPageRequest)
    ensures
        ({
            let path = spec_page_path(request);
            &&& (opt_string_view(request.region)) matches Some(v) ==> crate::url::has_param(path, "region"@, crate::url::url_encoded(v))
            &&& (opt_string_view(request.cursor)) matches Some(v) ==> crate::url::has_param(path, "cursor"@, crate::url::url_encoded(v))
        }),
{
    broadcast use crate::url::lemma_contains_appended, crate::url::lemma_contains_extended, crate::url::lemma_contains_prefix;

}

} // verus!
