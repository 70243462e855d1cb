//! The fee of a pool.

use vstd::prelude::*;

verus! {

/// The fee that a pool keeps of what is paid in: this many parts
pub const LIQUIDITY_FEES_NUMERATOR: u64 = 25;

/// of this many.
pub const LIQUIDITY_FEES_DENOMINATOR: u64 = 10000;

} // verus!
