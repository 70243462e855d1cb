//! What a swap is made of.

use crate::onchain::eclipse::common::constants::LIFINITY_PROGRAM_ID;
use crate::onchain::eclipse::common::ixs::{append_bytes, InstructionData};
use crate::onchain::eclipse::common::pubkey::Pubkey;
use crate::onchain::eclipse::common::typedefs::{AccountMeta, InstructionArgs};
use vstd::bytes::{spec_u64_to_le_bytes, u64_to_le_bytes};
use vstd::prelude::*;

verus! {

/// Which way a swap goes through a pool.
#[derive(Clone, Copy, Debug, PartialEq, Eq, Structural)]
pub enum TradeDirection {
    /// The pool's first token is paid in, its second paid out.
    AtoB,
    /// The pool's second token is paid in, its first paid out.
    BtoA,
}

/// A swap that a wallet wants: what is paid in, what is to come out at
/// least, if that is known, and whether the wallet pays in ether that has to
/// be wrapped first.
#[derive(Clone, Copy, Debug)]
pub struct SwapInfo {
    pub wallet_pubkey: Pubkey,
    pub token_a: Pubkey,
    pub token_b: Pubkey,
    pub amm_pool_pubkey: Pubkey,
    pub amount_in: u64,
    pub amount_out: Option<u64>,
    pub should_transfer_source: bool,
}

impl SwapInfo {
    /// A swap with these values.
    pub fn new(
        wallet_pubkey: &Pubkey,
        token_a: &Pubkey,
        token_b: &Pubkey,
        amm_pool_key: &Pubkey,
        amount_in: u64,
        amount_out: Option<u64>,
        should_transfer_source: bool,
    ) -> (info: SwapInfo)
        ensures
            info == (SwapInfo {
                wallet_pubkey: *wallet_pubkey,
                token_a: *token_a,
                token_b: *token_b,
                amm_pool_pubkey: *amm_pool_key,
                amount_in,
                amount_out,
                should_transfer_source,
            }),
    {
        SwapInfo {
            wallet_pubkey: *wallet_pubkey,
            token_a: *token_a,
            token_b: *token_b,
            amm_pool_pubkey: *amm_pool_key,
            amount_in,
            amount_out,
            should_transfer_source,
        }
    }
}

/// The two numbers that the swap instruction carries.
#[derive(Clone, Copy, Debug, PartialEq, Eq, Structural)]
pub struct LifinitySwapInput {
    amount_in: u64,
    minimum_amount_out: u64,
}

/// The name of the swap instruction.
pub const SWAP_INSTRUCTION_NAME: &'static str = "swap";

impl LifinitySwapInput {
    /// What is paid in.
    pub closed spec fn spec_amount_in(self) -> u64 {
        self.amount_in
    }

    /// What is to come out at least.
    pub closed spec fn spec_minimum_amount_out(self) -> u64 {
        self.minimum_amount_out
    }

    /// The two numbers of a swap.
    pub fn new(amount_in: u64, minimum_amount_out: u64) -> (input: LifinitySwapInput)
        ensures
            input.spec_amount_in() == amount_in,
            input.spec_minimum_amount_out() == minimum_amount_out,
    {
        LifinitySwapInput { amount_in, minimum_amount_out }
    }

    /// What is paid in.
    pub fn amount_in(&self) -> (amount: u64)
        ensures
            amount == self.spec_amount_in(),
    {
        self.amount_in
    }

    /// What is to come out at least.
    pub fn minimum_amount_out(&self) -> (amount: u64)
        ensures
            amount == self.spec_minimum_amount_out(),
    {
        self.minimum_amount_out
    }

}

impl InstructionData for LifinitySwapInput {
    open spec fn spec_instruction_name() -> &'static str {
        SWAP_INSTRUCTION_NAME
    }

    open spec fn spec_payload(&self) -> Seq<u8> {
        spec_u64_to_le_bytes(self.spec_amount_in()) + spec_u64_to_le_bytes(
            self.spec_minimum_amount_out(),
        )
    }

    fn instruction_name() -> (name: &'static str)
        ensures
            name == SWAP_INSTRUCTION_NAME,
    {
        SWAP_INSTRUCTION_NAME
    }

    /// Writes the two numbers in eight bytes each, lowest byte first.
    fn serialize(&self, buf: &mut Vec<u8>)
        ensures
            final(buf)@ == old(buf)@ + spec_u64_to_le_bytes(self.spec_amount_in())
                + spec_u64_to_le_bytes(self.spec_minimum_amount_out()),
    {
        let first = u64_to_le_bytes(self.amount_in);
        append_bytes(buf, first.as_slice());
        let second = u64_to_le_bytes(self.minimum_amount_out);
        append_bytes(buf, second.as_slice());
    }
}

/// Everything the swap instruction names.
#[derive(Clone, Copy, Debug)]
pub struct LifinitySwapArgs {
    pub authority: Pubkey,
    pub amm: Pubkey,
    pub user_transfer_authority: Pubkey,
    pub source_info: Pubkey,
    pub destination_info: Pubkey,
    pub swap_source: Pubkey,
    pub swap_destination: Pubkey,
    pub source_mint: Pubkey,
    pub destination_mint: Pubkey,
    pub pool_mint: Pubkey,
    pub fee_account: Pubkey,
    pub token_program: Pubkey,
    pub oracle_main_account: Pubkey,
    pub oracle_sub_account: Pubkey,
    pub oracle_pc_account: Pubkey,
    pub amount_in: u64,
    pub minimum_amount_out: u64,
}

/// An account that is written to and does not sign.
pub open spec fn spec_writable(pubkey: Pubkey) -> AccountMeta {
    AccountMeta { pubkey, is_signer: false, is_writable: true }
}

/// An account that is only read.
pub open spec fn spec_readonly(pubkey: Pubkey, is_signer: bool) -> AccountMeta {
    AccountMeta { pubkey, is_signer, is_writable: false }
}

impl LifinitySwapArgs {
    /// The accounts of the swap instruction, in the order in which the
    /// program expects them. Only the user signs; the authority, the token
    /// program and the oracles are only read.
    pub open spec fn spec_accounts(self) -> Seq<AccountMeta> {
        seq![
            spec_readonly(self.authority, false),
            spec_writable(self.amm),
            spec_readonly(self.user_transfer_authority, true),
            spec_writable(self.source_info),
            spec_writable(self.destination_info),
            spec_writable(self.swap_source),
            spec_writable(self.swap_destination),
            spec_writable(self.source_mint),
            spec_writable(self.destination_mint),
            spec_writable(self.pool_mint),
            spec_writable(self.fee_account),
            spec_readonly(self.token_program, false),
            spec_readonly(self.oracle_main_account, false),
            spec_readonly(self.oracle_sub_account, false),
            spec_readonly(self.oracle_pc_account, false),
        ]
    }

}

impl InstructionArgs<LifinitySwapInput> for LifinitySwapArgs {
    /// The program that runs the instruction.
    fn program_id(&self) -> (program: Pubkey)
        ensures
            program == (Pubkey { bytes: LIFINITY_PROGRAM_ID }),
    {
        Pubkey { bytes: LIFINITY_PROGRAM_ID }
    }

    /// Lists the accounts of the instruction.
    fn accounts(&self) -> (accounts: Vec<AccountMeta>)
        ensures
            accounts@ == self.spec_accounts(),
    {
        let mut accounts: Vec<AccountMeta> = Vec::new();
        accounts.push(AccountMeta::new_readonly(self.authority, false));
        accounts.push(AccountMeta::new(self.amm, false));
        accounts.push(AccountMeta::new_readonly(self.user_transfer_authority, true));
        accounts.push(AccountMeta::new(self.source_info, false));
        accounts.push(AccountMeta::new(self.destination_info, false));
        accounts.push(AccountMeta::new(self.swap_source, false));
        accounts.push(AccountMeta::new(self.swap_destination, false));
        accounts.push(AccountMeta::new(self.source_mint, false));
        accounts.push(AccountMeta::new(self.destination_mint, false));
        accounts.push(AccountMeta::new(self.pool_mint, false));
        accounts.push(AccountMeta::new(self.fee_account, false));
        accounts.push(AccountMeta::new_readonly(self.token_program, false));
        accounts.push(AccountMeta::new_readonly(self.oracle_main_account, false));
        accounts.push(AccountMeta::new_readonly(self.oracle_sub_account, false));
        accounts.push(AccountMeta::new_readonly(self.oracle_pc_account, false));
        assert(accounts@ =~= self.spec_accounts());
        accounts
    }

    /// The two numbers that the instruction carries.
    fn data(&self) -> (input: LifinitySwapInput)
        ensures
            input.spec_amount_in() == self.amount_in,
            input.spec_minimum_amount_out() == self.minimum_amount_out,
    {
        LifinitySwapInput::new(self.amount_in, self.minimum_amount_out)
    }
}

} // verus!
