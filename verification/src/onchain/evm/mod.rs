//! The EVM chain, from which funds are bridged.

pub mod types;
