//! Instructions of the system program and of the token program.

use super::constants::{
    ASSOCIATED_TOKEN_PROGRAM_ID, INSTRUCTION_NAMESPACE, SYSTEM_PROGRAM_ID, TOKEN_2022_PROGRAM_ID,
};
use super::pubkey::Pubkey;
use super::typedefs::{
    instruction_views, AccountMeta, CreateAtaArgs, Instruction, InstructionView,
};
use vstd::bytes::spec_u64_to_le_bytes;
use vstd::prelude::*;
use vstd::string::StringSliceAdditionalSpecFns;

verus! {

/// The SHA-256 digest of a list of bytes.
pub uninterp spec fn spec_sha256(data: Seq<u8>) -> Seq<u8>;

/// Hashes a list of bytes.
///
/// Calls `solana_sdk::hash::hash`, which feeds the bytes to SHA-256, and
/// takes the 32 bytes of the digest. The contract names the digest and says
/// no more of it.
#[verifier::external_body]
fn sha256(data: &[u8]) -> (digest: [u8; 32])
    ensures
        digest@ == spec_sha256(data@),
{
    solana_sdk::hash::hash(data).to_bytes()
}

/// The bytes that are hashed for an instruction of this name: the
/// namespace, a colon and the name.
pub open spec fn spec_hash_preimage(name: &str) -> Seq<u8> {
    INSTRUCTION_NAMESPACE.spec_bytes() + seq![58u8] + name.spec_bytes()
}

/// The eight bytes that stand for an instruction of this name.
pub open spec fn spec_function_hash(name: &str) -> Seq<u8> {
    spec_sha256(spec_hash_preimage(name)).take(8)
}

/// Puts bytes at the end of a buffer.
pub fn append_bytes(buffer: &mut Vec<u8>, bytes: &[u8])
    ensures
        final(buffer)@ == old(buffer)@ + bytes@,
{
    let mut at: usize = 0;
    while at < bytes.len()
        invariant
            at <= bytes.len(),
            buffer@ == old(buffer)@ + bytes@.take(at as int),
        decreases bytes.len() - at,
    {
        buffer.push(bytes[at]);
        at = at + 1;
        assert(buffer@ =~= old(buffer)@ + bytes@.take(at as int));
    }
    assert(bytes@.take(at as int) =~= bytes@);
}

/// What an instruction hands to its program: the eight bytes that stand for
/// its name and then its own values.
pub trait InstructionData {
    /// The name of the instruction.
    spec fn spec_instruction_name() -> &'static str;

    /// The values of the instruction as bytes.
    spec fn spec_payload(&self) -> Seq<u8>;

    /// The name of the instruction.
    fn instruction_name() -> (name: &'static str)
        ensures
            name == Self::spec_instruction_name(),
    ;

    /// Writes the values of the instruction at the end of a buffer.
    fn serialize(&self, buf: &mut Vec<u8>)
        ensures
            final(buf)@ == old(buf)@ + self.spec_payload(),
    ;

    /// The eight bytes that stand for the instruction: the first eight
    /// bytes of the digest of the namespace, a colon and the name.
    fn get_function_hash() -> (output: [u8; 8])
        ensures
            output@ == spec_function_hash(Self::spec_instruction_name()),
    {
        function_hash(Self::instruction_name())
    }

    /// The bytes that the program is handed: the eight bytes that stand for
    /// the instruction, and after them its values.
    fn get_data(&self) -> (buf: Vec<u8>)
        ensures
            buf@ == spec_function_hash(Self::spec_instruction_name()) + self.spec_payload(),
    {
        let mut buf: Vec<u8> = Vec::new();
        let hash = Self::get_function_hash();
        append_bytes(&mut buf, hash.as_slice());
        self.serialize(&mut buf);
        buf
    }
}

/// Computes the eight bytes that stand for an instruction of this name: the
/// first eight bytes of the digest of the namespace, a colon and the name.
pub fn function_hash(name: &str) -> (output: [u8; 8])
    ensures
        output@ == spec_function_hash(name),
{
    let mut preimage: Vec<u8> = Vec::new();
    append_bytes(&mut preimage, INSTRUCTION_NAMESPACE.as_bytes());
    preimage.push(58u8);
    append_bytes(&mut preimage, name.as_bytes());
    assert(preimage@ =~= spec_hash_preimage(name));
    let sighash = sha256(preimage.as_slice());
    let output: [u8; 8] = [
        sighash[0],
        sighash[1],
        sighash[2],
        sighash[3],
        sighash[4],
        sighash[5],
        sighash[6],
        sighash[7],
    ];
    assert(output@ =~= sighash@.take(8));
    output
}

/// The instruction that creates an associated token account.
pub open spec fn spec_create_ata(args: CreateAtaArgs) -> InstructionView {
    InstructionView {
        program_id: Pubkey { bytes: ASSOCIATED_TOKEN_PROGRAM_ID },
        accounts: seq![
            AccountMeta { pubkey: args.funding_address, is_signer: true, is_writable: true },
            AccountMeta {
                pubkey: args.associated_account_address,
                is_signer: false,
                is_writable: true,
            },
            AccountMeta { pubkey: args.wallet_address, is_signer: false, is_writable: false },
            AccountMeta { pubkey: args.token_mint_address, is_signer: false, is_writable: false },
            AccountMeta {
                pubkey: Pubkey { bytes: SYSTEM_PROGRAM_ID },
                is_signer: false,
                is_writable: false,
            },
            AccountMeta { pubkey: args.token_program_id, is_signer: false, is_writable: false },
        ],
        data: seq![args.instruction],
    }
}

/// Builds the instruction that creates an associated token account.
pub fn create_ata(args: CreateAtaArgs) -> (ix: Instruction)
    ensures
        ix@ == spec_create_ata(args),
{
    let mut accounts: Vec<AccountMeta> = Vec::new();
    accounts.push(AccountMeta::new(args.funding_address, true));
    accounts.push(AccountMeta::new(args.associated_account_address, false));
    accounts.push(AccountMeta::new_readonly(args.wallet_address, false));
    accounts.push(AccountMeta::new_readonly(args.token_mint_address, false));
    accounts.push(AccountMeta::new_readonly(Pubkey { bytes: SYSTEM_PROGRAM_ID }, false));
    accounts.push(AccountMeta::new_readonly(args.token_program_id, false));
    let mut data: Vec<u8> = Vec::new();
    data.push(args.instruction);
    let ix = Instruction {
        program_id: Pubkey { bytes: ASSOCIATED_TOKEN_PROGRAM_ID },
        accounts,
        data,
    };
    assert(ix@.accounts =~= spec_create_ata(args).accounts);
    assert(ix@.data =~= spec_create_ata(args).data);
    ix
}

/// The instruction that makes a token account of wrapped ether count what
/// was paid into it.
pub open spec fn spec_sync_native(token_program_id: Pubkey, account: Pubkey) -> InstructionView {
    InstructionView {
        program_id: token_program_id,
        accounts: seq![AccountMeta { pubkey: account, is_signer: false, is_writable: true }],
        data: seq![17u8],
    }
}

/// Builds the instruction that makes a token account of wrapped ether count
/// what was paid into it.
pub fn sync_native(token_program_id: &Pubkey, account_pubkey: &Pubkey) -> (ix: Instruction)
    ensures
        ix@ == spec_sync_native(*token_program_id, *account_pubkey),
{
    let mut accounts: Vec<AccountMeta> = Vec::new();
    accounts.push(AccountMeta::new(*account_pubkey, false));
    let mut data: Vec<u8> = Vec::new();
    data.push(17u8);
    let ix = Instruction { program_id: *token_program_id, accounts, data };
    assert(ix@.accounts =~= spec_sync_native(*token_program_id, *account_pubkey).accounts);
    assert(ix@.data =~= spec_sync_native(*token_program_id, *account_pubkey).data);
    ix
}

/// The instruction that closes a token account: the account, where its
/// balance goes, its owner, who signs unless other signers are named, and
/// those signers.
pub open spec fn spec_close_account(
    token_program_id: Pubkey,
    account: Pubkey,
    destination: Pubkey,
    owner: Pubkey,
    signers: Seq<Pubkey>,
) -> InstructionView {
    InstructionView {
        program_id: token_program_id,
        accounts: seq![
            AccountMeta { pubkey: account, is_signer: false, is_writable: true },
            AccountMeta { pubkey: destination, is_signer: false, is_writable: true },
            AccountMeta { pubkey: owner, is_signer: signers.len() == 0, is_writable: false },
        ] + signers.map_values(
            |signer: Pubkey| AccountMeta { pubkey: signer, is_signer: true, is_writable: false },
        ),
        data: seq![9u8],
    }
}

/// Builds the instruction that closes a token account.
pub fn close_account(
    token_program_id: &Pubkey,
    account_pubkey: &Pubkey,
    destination_pubkey: &Pubkey,
    owner_pubkey: &Pubkey,
    signer_pubkeys: &[Pubkey],
) -> (ix: Instruction)
    ensures
        ix@ == spec_close_account(
            *token_program_id,
            *account_pubkey,
            *destination_pubkey,
            *owner_pubkey,
            signer_pubkeys@,
        ),
{
    let ghost wanted = spec_close_account(
        *token_program_id,
        *account_pubkey,
        *destination_pubkey,
        *owner_pubkey,
        signer_pubkeys@,
    );
    let mut accounts: Vec<AccountMeta> = Vec::new();
    accounts.push(AccountMeta::new(*account_pubkey, false));
    accounts.push(AccountMeta::new(*destination_pubkey, false));
    accounts.push(AccountMeta::new_readonly(*owner_pubkey, signer_pubkeys.len() == 0));
    let mut at: usize = 0;
    while at < signer_pubkeys.len()
        invariant
            at <= signer_pubkeys.len(),
            accounts@.len() == 3 + at,
            forall|i: int| 0 <= i < 3 + at ==> accounts@[i] == wanted.accounts[i],
            wanted == spec_close_account(
                *token_program_id,
                *account_pubkey,
                *destination_pubkey,
                *owner_pubkey,
                signer_pubkeys@,
            ),
        decreases signer_pubkeys.len() - at,
    {
        accounts.push(AccountMeta::new_readonly(signer_pubkeys[at], true));
        at = at + 1;
    }
    let mut data: Vec<u8> = Vec::new();
    data.push(9u8);
    let ix = Instruction { program_id: *token_program_id, accounts, data };
    assert(ix@.accounts =~= wanted.accounts);
    assert(ix@.data =~= wanted.data);
    ix
}

/// The two instructions that turn wrapped ether back into ether.
pub open spec fn spec_unwrap_eth(user: Pubkey, user_ata: Pubkey) -> Seq<InstructionView> {
    seq![
        spec_sync_native(Pubkey { bytes: TOKEN_2022_PROGRAM_ID }, user_ata),
        spec_close_account(
            Pubkey { bytes: TOKEN_2022_PROGRAM_ID },
            user_ata,
            user,
            user,
            seq![user],
        ),
    ]
}

/// Builds the two instructions that turn wrapped ether back into ether: the
/// token account is brought up to date and then closed in favour of the user.
pub fn unwrap_eth(user: &Pubkey, user_ata: &Pubkey) -> (ixs: Vec<Instruction>)
    ensures
        instruction_views(ixs@) == spec_unwrap_eth(*user, *user_ata),
{
    let program = Pubkey { bytes: TOKEN_2022_PROGRAM_ID };
    let signers: [Pubkey; 1] = [*user];
    assert(signers@ =~= seq![*user]);
    let mut ixs: Vec<Instruction> = Vec::new();
    ixs.push(sync_native(&program, user_ata));
    ixs.push(close_account(&program, user_ata, user, user, &signers));
    assert(instruction_views(ixs@) =~= spec_unwrap_eth(*user, *user_ata));
    ixs
}

/// The instruction of the system program that moves lamports from one
/// account to another.
pub open spec fn spec_system_transfer(from: Pubkey, to: Pubkey, lamports: u64) -> InstructionView {
    InstructionView {
        program_id: Pubkey { bytes: SYSTEM_PROGRAM_ID },
        accounts: seq![
            AccountMeta { pubkey: from, is_signer: true, is_writable: true },
            AccountMeta { pubkey: to, is_signer: false, is_writable: true },
        ],
        data: seq![2u8, 0u8, 0u8, 0u8] + spec_u64_to_le_bytes(lamports),
    }
}

/// Builds the instruction that moves lamports from one account to another.
///
/// Calls `solana_sdk::system_instruction::transfer`. Its instruction is for
/// the system program, names the sender as a signer that is written to and
/// the receiver as written to, and carries the number 2 in four bytes and
/// the lamports in eight, both with the lowest byte first.
#[verifier::external_body]
pub(crate) fn system_transfer(from: &Pubkey, to: &Pubkey, lamports: u64) -> (ix: Instruction)
    ensures
        ix@ == spec_system_transfer(*from, *to, lamports),
{
    let from = solana_sdk::pubkey::Pubkey::new_from_array(from.bytes);
    let to = solana_sdk::pubkey::Pubkey::new_from_array(to.bytes);
    let built = solana_sdk::system_instruction::transfer(&from, &to, lamports);
    let accounts = built.accounts.iter().map(
        |meta| AccountMeta {
            pubkey: Pubkey { bytes: meta.pubkey.to_bytes() },
            is_signer: meta.is_signer,
            is_writable: meta.is_writable,
        },
    ).collect();
    Instruction { program_id: Pubkey { bytes: built.program_id.to_bytes() }, accounts, data: built.data }
}

} // verus!
