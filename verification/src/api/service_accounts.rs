//! Paths of service accounts and the bearer secrets they are issued.
use vstd::prelude::*;
use crate::contract::ServiceAccountStatus;
use crate::text::{decimal, push_count, push_i64};
use crate::url::{
    append_optional_encoded, append_optional_raw, opt_as_str, opt_encoded_param, opt_raw_param,
    opt_string_view,
};
use super::{is_lower_hex, is_simple_v4, random_simple_uuid};

verus! {

/// One page request of the service account list.
#[derive(Clone)]
pub struct ServiceAccountPageRequest {
    pub status: Option<ServiceAccountStatus>,
    pub cursor: Option<String>,
    pub limit: u16,
}

/// One page request of a service account's events.
#[derive(Clone)]
pub struct ServiceAccountEventPageRequest {
    pub cursor: Option<String>,
    pub limit: u16,
}

/// The secret part of a bearer: the first 48 characters of the two random
/// texts put together (all of them when they are shorter).
pub open spec fn bearer_secret(first: Seq<char>, second: Seq<char>) -> Seq<char> {
    let joined = first + second;
    if joined.len() <= 48 {
        joined
    } else {
        joined.take(48)
    }
}

/// Builds a service account bearer from two random texts: `wbs_sa_` and the
/// first 48 characters of the two put together.
pub fn service_account_bearer_from(first: &str, second: &str) -> (r: String)
    ensures
        r@ == "wbs_sa_"@ + bearer_secret(first@, second@),
{
    let mut joined = String::from_str(first);
    joined.append(second);
    let n = joined.as_str().unicode_len();
    let take = if n <= 48 {
        n
    } else {
        48
    };
    let secret = joined.as_str().substring_char(0, take);
    assert(joined@.len() <= 48 ==> joined@.subrange(0, take as int) =~= joined@);
    let mut bearer = String::from_str("wbs_sa_");
    bearer.append(secret);
    bearer
}

/// Generates a new service account bearer: `wbs_sa_` and the first 48 of
/// the 64 lower-case hexadecimal digits of two random version-4 UUIDs, so
/// that the first UUID's version and variant digits stand at 19 and 23, and
/// the second's version digit at 51.
pub fn generate_service_account_bearer() -> (r: String)
    ensures
        exists|first: Seq<char>, second: Seq<char>|
            #![trigger is_simple_v4(first), is_simple_v4(second)]
            is_simple_v4(first) && is_simple_v4(second) && r@ == "wbs_sa_"@ + bearer_secret(
                first,
                second,
            ),
        r@.len() == 55,
        r@.subrange(0, 7) == "wbs_sa_"@,
        forall|i: int| 7 <= i < 55 ==> is_lower_hex(#[trigger] r@[i]),
        r@[19] == '4',
        r@[23] == '8' || r@[23] == '9' || r@[23] == 'a' || r@[23] == 'b',
        r@[51] == '4',
{
    let first = random_simple_uuid();
    let second = random_simple_uuid();
    let r = service_account_bearer_from(first.as_str(), second.as_str());
    proof {
        reveal_strlit("wbs_sa_");
        let joined = first@ + second@;
        assert forall|i: int| 7 <= i < 55 implies is_lower_hex(#[trigger] r@[i]) by {
            assert(r@[i] == joined[i - 7]);
            if i - 7 < 32 {
                assert(joined[i - 7] == first@[i - 7]);
            } else {
                assert(joined[i - 7] == second@[i - 7 - 32]);
            }
        }
        assert(r@.subrange(0, 7) =~= "wbs_sa_"@);
        assert(r@[19] == first@[12]);
        assert(r@[23] == first@[16]);
        assert(r@[51] == joined[44]);
        assert(joined[44] == second@[12]);
        assert(is_simple_v4(first@) && is_simple_v4(second@));
    }
    r
}

/// The path of one page of service accounts.
pub open spec fn spec_page_path(request: ServiceAccountPageRequest) -> Seq<char> {
    "/api/v1/service-accounts?limit="@ + decimal(request.limit as int) + opt_raw_param(
        "status"@,
        match request.status {
            Some(s) => Some(s.wire()),
            None => None,
        },
    ) + opt_encoded_param("cursor"@, opt_string_view(request.cursor))
}

/// Builds the path of one page of service accounts.
pub fn page_path(request: &ServiceAccountPageRequest) -> (r: String)
    ensures
        r@ == spec_page_path(*request),
{
    let mut path = String::from_str("/api/v1/service-accounts?limit=");
    push_count(&mut path, request.limit as u64);
    let wire = match request.status {
        Some(s) => Some(s.as_wire()),
        None => None,
    };
    append_optional_raw(&mut path, "status", wire);
    append_optional_encoded(&mut path, "cursor", opt_as_str(&request.cursor));
    path
}

/// Builds the path of one page of a service account's events.
pub fn event_page_path(id: i64, request: &ServiceAccountEventPageRequest) -> (r: String)
    ensures
        r@ == "/api/v1/service-accounts/"@ + decimal(id as int) + "/events?limit="@ + decimal(
            request.limit as int,
        ) + opt_encoded_param("cursor"@, opt_string_view(request.cursor)),
{
    let mut path = String::from_str("/api/v1/service-accounts/");
    push_i64(&mut path, id);
    path.append("/events?limit=");
    push_count(&mut path, request.limit as u64);
    append_optional_encoded(&mut path, "cursor", opt_as_str(&request.cursor));
    path
}

} // verus!

verus! {

/// Every parameter of `spec_page_path` whose value is given is sent: cursor.
pub proof fn lemma_page_path_sends_what_is_set(request: ServiceAccountPageRequest)
    ensures
        ({
            let path = spec_page_path(request);
            &&& (opt_string_view(request.cursor)) matches Some(v) ==> crate::url::has_param(path, "cursor"@, crate::url::url_encoded(v))
        }),
{
    broadcast use crate::url::lemma_contains_appended, crate::url::lemma_contains_extended, crate::url::lemma_contains_prefix;

}

} // verus!
