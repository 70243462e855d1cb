//! The price feed.

pub mod schemas;
