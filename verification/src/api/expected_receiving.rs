//! Paths of expected receiving.
use vstd::prelude::*;
use crate::text::decimal;
use super::resource_path;

verus! {

/// Builds the path of the expected-receiving session of one inbound load.
pub fn expected_receiving_session_path(load_id: i64) -> (r: String)
    ensures
        r@ == "/api/v1/expected-receiving/loads/"@ + decimal(load_id as int),
{
    let path = resource_path("/api/v1/expected-receiving/loads/", load_id, "");
    proof { reveal_strlit(""); }
    assert(path@ =~= "/api/v1/expected-receiving/loads/"@ + decimal(load_id as int));
    path
}

} // verus!
