//! Fault-tolerant batch processing of accounts with goal-gated action selection.
//!
//! A pool of accounts is driven through a one-time bridge transfer and then
//! through repeated swaps and mints until every account has met its quota.
//! The library holds the decisions: how ids are split into batches, what a
//! worker does next, which action an account runs, and what the store holds
//! afterwards.

pub mod coinlore;
pub mod config;
pub mod db;
pub mod modules;
pub mod onchain;
pub mod utils;
