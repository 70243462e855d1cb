//! What the price feed answers.

use vstd::prelude::*;

verus! {

/// The price of one token as the feed reports it: the id of the token and
/// its price in dollars, both as text.
#[derive(Debug)]
pub struct TokenInfo {
    pub id: String,
    pub price_usd: String,
}

} // verus!
