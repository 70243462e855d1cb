//! Mints on Underdog.

pub mod create;
pub mod schema;
