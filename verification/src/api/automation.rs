//! Paths of the automation workspace.
use vstd::prelude::*;
use crate::text::{bool_text, push_bool};
use crate::url::{append_optional_id, opt_id_param};

verus! {

/// Builds the path of the automation workspace; the facility scope is
/// appended only when one is chosen.
pub fn workspace_path(facility_id: Option<i64>, include_history: bool) -> (r: String)
    ensures
        r@ == "/api/v1/automation/workspace?include_history="@ + bool_text(include_history)
            + opt_id_param("facility_id"@, facility_id),
{
    let mut path = String::from_str("/api/v1/automation/workspace?include_history=");
    push_bool(&mut path, include_history);
    append_optional_id(&mut path, "facility_id", facility_id);
    path
}

} // verus!
