//! What is sent to the two chains.

pub mod eclipse;
pub mod evm;
