//! The tokens that the warmup trades.

use super::constants::{ETH_PUBKEY, SOL_PUBKEY, USDC_PUBKEY};
use super::pubkey::{lemma_pubkey_equal_by_bytes, Pubkey};
use crate::utils::misc::choose_one;
use vstd::prelude::*;

verus! {

/// A token: its mint, how many decimals an amount has, its symbol, whether
/// it is the chain's own coin, and its id at the price feed.
#[derive(Clone, Copy, Debug)]
pub struct Token {
    pub mint: Pubkey,
    pub decimals: u8,
    pub symbol: &'static str,
    pub is_native: bool,
    pub coinlore_id: &'static str,
}

/// Two tokens agree in every field.
pub open spec fn spec_same_token(a: Token, b: Token) -> bool {
    &&& a.mint == b.mint
    &&& a.decimals == b.decimals
    &&& a.symbol@ == b.symbol@
    &&& a.is_native == b.is_native
    &&& a.coinlore_id@ == b.coinlore_id@
}

/// Ether.
pub open spec fn spec_eth() -> Token {
    Token {
        mint: Pubkey { bytes: ETH_PUBKEY },
        decimals: 9,
        symbol: "ETH",
        is_native: true,
        coinlore_id: "80",
    }
}

/// USDC.
pub open spec fn spec_usdc() -> Token {
    Token {
        mint: Pubkey { bytes: USDC_PUBKEY },
        decimals: 6,
        symbol: "USDC",
        is_native: false,
        coinlore_id: "33285",
    }
}

/// SOL.
pub open spec fn spec_sol() -> Token {
    Token {
        mint: Pubkey { bytes: SOL_PUBKEY },
        decimals: 9,
        symbol: "SOL",
        is_native: false,
        coinlore_id: "48543",
    }
}

/// Whether two texts are the same.
pub fn same_text(a: &str, b: &str) -> (same: bool)
    ensures
        same == (a@ == b@),
{
    let left = a.to_owned();
    let right = b.to_owned();
    left == right
}

impl Token {
    /// Ether.
    pub fn eth() -> (token: Token)
        ensures
            token == spec_eth(),
    {
        Token {
            mint: Pubkey { bytes: ETH_PUBKEY },
            decimals: 9,
            symbol: "ETH",
            is_native: true,
            coinlore_id: "80",
        }
    }

    /// USDC.
    pub fn usdc() -> (token: Token)
        ensures
            token == spec_usdc(),
    {
        Token {
            mint: Pubkey { bytes: USDC_PUBKEY },
            decimals: 6,
            symbol: "USDC",
            is_native: false,
            coinlore_id: "33285",
        }
    }

    /// SOL.
    pub fn sol() -> (token: Token)
        ensures
            token == spec_sol(),
    {
        Token {
            mint: Pubkey { bytes: SOL_PUBKEY },
            decimals: 9,
            symbol: "SOL",
            is_native: false,
            coinlore_id: "48543",
        }
    }

    /// Whether the two tokens agree in every field.
    pub fn same(&self, other: &Token) -> (same: bool)
        ensures
            same == spec_same_token(*self, *other),
    {
        proof {
            lemma_pubkey_equal_by_bytes(self.mint, other.mint);
        }
        self.mint == other.mint && self.decimals == other.decimals && same_text(
            self.symbol,
            other.symbol,
        ) && self.is_native == other.is_native && same_text(self.coinlore_id, other.coinlore_id)
    }

    /// The token that the price feed lists under this id, if it is one of
    /// the three.
    pub fn from_coinlore_id(id: &str) -> (token: Option<Token>)
        ensures
            id@ == "80"@ ==> token == Some(spec_eth()),
            id@ != "80"@ && id@ == "48543"@ ==> token == Some(spec_sol()),
            id@ != "80"@ && id@ != "48543"@ && id@ == "33285"@ ==> token == Some(spec_usdc()),
            id@ != "80"@ && id@ != "48543"@ && id@ != "33285"@ ==> token is None,
    {
        if same_text(id, "80") {
            Some(Token::eth())
        } else if same_text(id, "48543") {
            Some(Token::sol())
        } else if same_text(id, "33285") {
            Some(Token::usdc())
        } else {
            None
        }
    }

    /// The token that is swapped for `token_in`: USDC for ether and for SOL,
    /// and ether or SOL, picked at random, for anything else.
    pub fn get_lifinity_paired_token(token_in: &Token) -> (token: Token)
        ensures
            spec_same_token(*token_in, spec_eth()) || spec_same_token(*token_in, spec_sol())
                ==> token == spec_usdc(),
            !spec_same_token(*token_in, spec_eth()) && !spec_same_token(*token_in, spec_sol())
                ==> token == spec_eth() || token == spec_sol(),
    {
        if token_in.same(&Token::eth()) || token_in.same(&Token::sol()) {
            Token::usdc()
        } else {
            let mut others: Vec<Token> = Vec::new();
            others.push(Token::eth());
            others.push(Token::sol());
            match choose_one(&others) {
                Some(token) => {
                    proof {
                        let at = choose|i: int| 0 <= i < others@.len() && others@[i] == token;
                        assert(others@[at] == token);
                    }
                    token
                },
                None => Token::eth(),
            }
        }
    }

    /// The token with this mint, if it is one of the three.
    pub fn try_from(pubkey: Pubkey) -> (token: Option<Token>)
        ensures
            pubkey.bytes@ == ETH_PUBKEY@ ==> token == Some(spec_eth()),
            pubkey.bytes@ != ETH_PUBKEY@ && pubkey.bytes@ == SOL_PUBKEY@ ==> token == Some(
                spec_sol(),
            ),
            pubkey.bytes@ != ETH_PUBKEY@ && pubkey.bytes@ != SOL_PUBKEY@ && pubkey.bytes@
                == USDC_PUBKEY@ ==> token == Some(spec_usdc()),
            pubkey.bytes@ != ETH_PUBKEY@ && pubkey.bytes@ != SOL_PUBKEY@ && pubkey.bytes@
                != USDC_PUBKEY@ ==> token is None,
    {
        if pubkey == (Pubkey { bytes: ETH_PUBKEY }) {
            Some(Token::eth())
        } else if pubkey == (Pubkey { bytes: SOL_PUBKEY }) {
            Some(Token::sol())
        } else if pubkey == (Pubkey { bytes: USDC_PUBKEY }) {
            Some(Token::usdc())
        } else {
            None
        }
    }
}

} // verus!
