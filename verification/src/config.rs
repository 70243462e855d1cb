//! The settings of a run.

use vstd::prelude::*;

verus! {

/// All settings, by the part of the program that reads them.
#[derive(Debug)]
pub struct Config {
    pub general: General,
    pub bridge: Bridge,
    pub lifinity: Lifinity,
    pub underdog: Underdog,
}

/// Where the chains are reached, and how many workers run at once.
#[derive(Debug)]
pub struct General {
    pub eclipse_rpc_url: String,
    pub mainnet_rpc_url: String,
    pub thread_count: u64,
}

/// The bridge phase: which share of the balance leaves, in percent, and how
/// many seconds pass between two accounts. Each range is a pair of bounds.
#[derive(Debug)]
pub struct Bridge {
    pub balance_percentage_range: [u32; 2],
    pub wallet_sleep_delay_range: [u32; 2],
}

/// Swaps: how many an account is to make, which share of the balance goes
/// into one, in percent, and how many seconds pass between two accounts.
#[derive(Debug)]
pub struct Lifinity {
    pub swaps_count_range: [u32; 2],
    pub balance_percentage_range: [u32; 2],
    pub wallet_sleep_delay_range: [u32; 2],
}

/// Mints: how many an account is to make.
#[derive(Debug)]
pub struct Underdog {
    pub create_count_range: [u32; 2],
}

} // verus!
