//! Instructions and accounts of the Eclipse chain.

pub mod common;
pub mod lifinity;
pub mod underdog;
