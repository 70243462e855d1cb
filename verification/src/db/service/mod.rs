//! Queries and mutations, one pair for each table.

pub mod account;
pub mod account_goal;
pub mod bridge_module_state;
pub mod prelude;
