//! Tokens of the EVM chain.

use crate::utils::misc::push_text;
use vstd::prelude::*;

verus! {

/// The address of an account or a contract: 20 bytes.
#[derive(Clone, Copy, Debug)]
pub struct Address {
    pub bytes: [u8; 20],
}

/// A token: the contract that keeps its balances, unless it is the chain's
/// own coin, how many decimals an amount has, and its symbol.
#[derive(Clone, Copy, Debug)]
pub struct Token {
    pub contract_address: Option<Address>,
    pub decimals: u8,
    pub symbol: &'static str,
    pub is_erc20: bool,
}

impl Token {
    /// Ether.
    pub fn eth() -> (token: Token)
        ensures
            token.contract_address is None,
            token.decimals == 18,
            token.symbol@ == "ETH"@,
            !token.is_erc20,
    {
        Token { contract_address: None, decimals: 18, symbol: "ETH", is_erc20: false }
    }

    /// The token as it is shown: a dollar sign and the symbol.
    pub fn label(&self) -> (text: String)
        ensures
            text@ == "$"@ + self.symbol@,
    {
        let mut text = "$".to_owned();
        push_text(&mut text, self.symbol);
        text
    }
}

} // verus!
