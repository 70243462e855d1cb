//! The account table.

pub mod mutation;
pub mod query;
