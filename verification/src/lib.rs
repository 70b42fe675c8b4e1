//! Request paths, query strings, wire values and form helpers of the
//! warehouse operations console, with their contracts proved by Verus.
pub mod admin_billing;
pub mod admin_clients;
pub mod admin_configuration;
pub mod admin_count_plans;
pub mod admin_integrations;
pub mod admin_permissions;
pub mod admin_roles;
pub mod admin_users;
pub mod admin_workforce;
pub mod administration;
pub mod api;
pub mod command;
pub mod listing;
pub mod models;
pub mod sorting;
pub mod contract;
pub mod text;
pub mod url;
pub mod workbench;

use vstd::prelude::*;

verus! {

} // verus!
