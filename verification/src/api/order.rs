//! Paths of order entry.
use vstd::prelude::*;
use crate::text::{decimal, push_i64, trim, trimmed};
use crate::url::{append_optional_nonempty, opt_nonempty_param};

verus! {

/// Builds the path of the items a client can order, at most fifty, with the
/// search text trimmed and percent-encoded, and left out when it is blank.
pub fn order_entry_items_path(inventory_owner_id: i64, search: &str) -> (r: String)
    ensures
        r@ == "/api/v1/inventory-owners/"@ + decimal(inventory_owner_id as int)
            + "/order-entry-items?limit=50"@ + opt_nonempty_param("search"@, Some(trimmed(search@))),
{
    let mut path = String::from_str("/api/v1/inventory-owners/");
    push_i64(&mut path, inventory_owner_id);
    path.append("/order-entry-items?limit=50");
    append_optional_nonempty(&mut path, "search", Some(trim(search)));
    path
}

} // verus!
