//! The table of bridge states.

pub mod mutation;
pub mod query;
