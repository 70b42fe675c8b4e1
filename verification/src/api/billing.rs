//! Paths of the billing workspace.
use vstd::prelude::*;
use crate::url::{append_optional_id, opt_id_param};

verus! {

/// Scope of the billing workspace.
#[derive(Clone, Copy, Default)]
pub struct BillingFilters {
    pub inventory_owner_id: Option<i64>,
    pub contract_id: Option<i64>,
}

/// Builds the path of the billing workspace, bound to the chosen client and
/// contract.
pub fn workspace_path(filters: BillingFilters) -> (r: String)
    ensures
        r@ == "/api/v1/billing/workspace?limit=100"@ + opt_id_param(
            "inventory_owner_id"@,
            filters.inventory_owner_id,
        ) + opt_id_param("contract_id"@, filters.contract_id),
{
    let mut path = String::from_str("/api/v1/billing/workspace?limit=100");
    append_optional_id(&mut path, "inventory_owner_id", filters.inventory_owner_id);
    append_optional_id(&mut path, "contract_id", filters.contract_id);
    path
}

} // verus!
