//! The table of goals.

pub mod mutation;
pub mod query;
