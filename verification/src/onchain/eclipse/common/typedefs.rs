//! Plain records that instructions and answers of the chain are made of.

use super::pubkey::Pubkey;
use vstd::prelude::*;

verus! {

/// An account that an instruction touches, and how.
#[derive(Clone, Copy, Debug, PartialEq, Eq)]
pub struct AccountMeta {
    pub pubkey: Pubkey,
    pub is_signer: bool,
    pub is_writable: bool,
}

impl AccountMeta {
    /// An account that the instruction may write to.
    pub fn new(pubkey: Pubkey, is_signer: bool) -> (meta: AccountMeta)
        ensures
            meta == (AccountMeta { pubkey, is_signer, is_writable: true }),
    {
        AccountMeta { pubkey, is_signer, is_writable: true }
    }

    /// An account that the instruction only reads.
    pub fn new_readonly(pubkey: Pubkey, is_signer: bool) -> (meta: AccountMeta)
        ensures
            meta == (AccountMeta { pubkey, is_signer, is_writable: false }),
    {
        AccountMeta { pubkey, is_signer, is_writable: false }
    }
}

/// One instruction of a transaction: the program, the accounts it touches,
/// and the bytes it is handed.
#[derive(Clone, Debug, PartialEq, Eq)]
pub struct Instruction {
    pub program_id: Pubkey,
    pub accounts: Vec<AccountMeta>,
    pub data: Vec<u8>,
}

/// An instruction as a plain value.
pub struct InstructionView {
    pub program_id: Pubkey,
    pub accounts: Seq<AccountMeta>,
    pub data: Seq<u8>,
}

impl View for Instruction {
    type V = InstructionView;

    open spec fn view(&self) -> InstructionView {
        InstructionView { program_id: self.program_id, accounts: self.accounts@, data: self.data@ }
    }
}

/// The views of a list of instructions.
pub open spec fn instruction_views(ixs: Seq<Instruction>) -> Seq<InstructionView> {
    ixs.map_values(|ix: Instruction| ix@)
}

/// What an instruction is assembled from: its program, its accounts and the
/// values it carries.
pub trait InstructionArgs<T> {
    /// The program that runs the instruction.
    fn program_id(&self) -> Pubkey;

    /// The accounts that the instruction touches, in order.
    fn accounts(&self) -> Vec<AccountMeta>;

    /// The values that the instruction carries.
    fn data(&self) -> T;
}

/// What is needed to create an associated token account.
#[derive(Clone, Copy, Debug)]
pub struct CreateAtaArgs {
    pub funding_address: Pubkey,
    pub associated_account_address: Pubkey,
    pub wallet_address: Pubkey,
    pub token_mint_address: Pubkey,
    pub token_program_id: Pubkey,
    pub instruction: u8,
}

/// The amount of a token account as the chain reports it, in text.
#[derive(Debug)]
pub struct TokenAmount {
    pub amount: String,
}

/// What the chain reports of a token account: the amount and the mint.
#[derive(Debug)]
pub struct ParsedTokenAccountInfo {
    pub token_amount: TokenAmount,
    pub mint: String,
}

/// A token account as the chain reports it.
#[derive(Debug)]
pub struct ParsedTokenAccount {
    pub info: ParsedTokenAccountInfo,
}

} // verus!
