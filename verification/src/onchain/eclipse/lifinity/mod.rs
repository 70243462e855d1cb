//! Swaps on Lifinity.

pub mod constants;
pub mod math;
pub mod swap;
pub mod typedefs;
pub mod utils;
