//! The instructions of a swap.

use super::typedefs::{LifinitySwapArgs, SwapInfo, TradeDirection};
use super::utils::{
    assemble_swap_ix, determine_pool_pubkey, determine_trade_direction, extract_out_value,
    spec_extract_out_value, spec_is_eth_usdc, spec_is_sol_usdc, spec_swap_ix,
    spec_trade_direction,
};
use crate::onchain::eclipse::common::constants::{
    ASSOCIATED_TOKEN_PROGRAM_ID, ETH_PUBKEY, ETH_USDC_AMM_PUBKEY, LIFINITY_PROGRAM_ID,
    SOL_USDC_AMM_PUBKEY, TOKEN_2022_PROGRAM_ID,
};
use crate::onchain::eclipse::common::derive::{
    derive_ata, derive_program_authority, spec_ata_seeds, spec_program_address,
};
use crate::onchain::eclipse::common::ixs::{
    create_ata, spec_create_ata, spec_sync_native, spec_system_transfer, spec_unwrap_eth,
    sync_native, system_transfer, unwrap_eth,
};
use crate::onchain::eclipse::common::pubkey::{lemma_pubkey_equal_by_bytes, Pubkey};
use crate::onchain::eclipse::common::state::{
    spec_account_valid, spec_read_u64, Account, Amm, StateError,
};
use crate::onchain::eclipse::common::typedefs::{
    instruction_views, CreateAtaArgs, Instruction, InstructionView,
};
use vstd::prelude::*;

verus! {

/// Why the instructions of a swap cannot be made.
#[derive(Clone, Copy, Debug, PartialEq, Eq, Structural)]
pub enum SwapError {
    /// An address that the swap needs cannot be derived.
    AddressNotFound,
    /// No pool trades the two tokens.
    UnknownPool,
    /// The pool does not trade the two tokens in either direction.
    UnknownTradeDirection,
    /// The token paid in is neither of the pool's tokens.
    InvalidAmmPool,
    /// An amount does not fit in 64 bits.
    Overflow,
    /// The bytes of an account are refused.
    State(StateError),
}

/// The reserves of a pool, read from the bytes of its two token accounts:
/// the amount of the first and the amount of the second.
pub fn swap_reserves(account_a_data: &[u8], account_b_data: &[u8]) -> (res: Result<
    (u64, u64),
    StateError,
>)
    ensures
        spec_account_valid(account_a_data@) && spec_account_valid(account_b_data@) ==> res == Ok::<
            (u64, u64),
            StateError,
        >((spec_read_u64(account_a_data@, 64), spec_read_u64(account_b_data@, 64))),
        !(spec_account_valid(account_a_data@) && spec_account_valid(account_b_data@)) ==> res
            == Err::<(u64, u64), StateError>(StateError::InvalidAccountData),
{
    let account_a = match Account::deserialize(account_a_data) {
        Ok(account) => account,
        Err(e) => {
            return Err(e);
        },
    };
    let account_b = match Account::deserialize(account_b_data) {
        Ok(account) => account,
        Err(e) => {
            return Err(e);
        },
    };
    Ok((account_a.amount, account_b.amount))
}

/// The least that a swap is to pay out when a simulation has told what it
/// pays out: that amount less two hundredths of it, rounded down.
pub open spec fn spec_quoted_minimum(value: u64) -> int {
    value - value * 2 / 100
}

/// Computes the least that a swap is to pay out from what a simulation paid
/// out, or nothing where twice that amount does not fit in 64 bits.
pub fn quoted_minimum(value: u64) -> (minimum: Option<u64>)
    ensures
        value * 2 <= u64::MAX ==> minimum == Some(spec_quoted_minimum(value) as u64),
        value * 2 > u64::MAX ==> minimum is None,
{
    if value > u64::MAX / 2 {
        None
    } else {
        Some(value - value * 2 / 100)
    }
}

/// The mints and token accounts of a pool as a swap sees them: paid in
/// first, paid out second. The token paid in has to be one of the pool's.
pub open spec fn spec_pool_sides(token_a: Pubkey, amm: Amm) -> Option<
    (Pubkey, Pubkey, Pubkey, Pubkey),
> {
    if token_a == amm.token_a_mint {
        Some((amm.token_a_account, amm.token_b_account, amm.token_a_mint, amm.token_b_mint))
    } else if token_a == amm.token_b_mint {
        Some((amm.token_b_account, amm.token_a_account, amm.token_b_mint, amm.token_a_mint))
    } else {
        None
    }
}

/// The instruction that creates the wallet's token account for a mint.
pub open spec fn spec_wallet_ata_ix(wallet: Pubkey, account: Pubkey, mint: Pubkey) -> InstructionView {
    spec_create_ata(
        CreateAtaArgs {
            funding_address: wallet,
            associated_account_address: account,
            wallet_address: wallet,
            token_mint_address: mint,
            token_program_id: Pubkey { bytes: TOKEN_2022_PROGRAM_ID },
            instruction: 1,
        },
    )
}

/// The accounts and amounts of the swap instruction.
pub open spec fn spec_swap_args(
    info: SwapInfo,
    amm: Amm,
    authority: Pubkey,
    source_info: Pubkey,
    destination_info: Pubkey,
    sides: (Pubkey, Pubkey, Pubkey, Pubkey),
    minimum_amount_out: u64,
) -> LifinitySwapArgs {
    LifinitySwapArgs {
        authority,
        amm: info.amm_pool_pubkey,
        user_transfer_authority: info.wallet_pubkey,
        source_info,
        destination_info,
        swap_source: sides.0,
        swap_destination: sides.1,
        source_mint: sides.2,
        destination_mint: sides.3,
        pool_mint: amm.pool_mint,
        fee_account: amm.fee_account,
        token_program: Pubkey { bytes: TOKEN_2022_PROGRAM_ID },
        oracle_main_account: amm.oracle_main_account,
        oracle_sub_account: amm.oracle_sub_account,
        oracle_pc_account: amm.oracle_pc_account,
        amount_in: info.amount_in,
        minimum_amount_out,
    }
}

/// The instructions of a swap, in order, once the three addresses are known.
///
/// The wallet's account for the token paid in is created. Where the wallet
/// pays in ether, the amount is moved into that account and the account
/// brought up to date. The wallet's account for the token paid out is
/// created. Then comes the swap itself. Where ether is paid out, it is
/// unwrapped at the end.
pub open spec fn spec_swap_instructions(
    info: SwapInfo,
    amm: Amm,
    authority: Pubkey,
    source_info: Pubkey,
    destination_info: Pubkey,
    sides: (Pubkey, Pubkey, Pubkey, Pubkey),
    minimum_amount_out: u64,
) -> Seq<InstructionView> {
    let token_program = Pubkey { bytes: TOKEN_2022_PROGRAM_ID };
    let funding = if info.should_transfer_source {
        seq![
            spec_system_transfer(info.wallet_pubkey, source_info, info.amount_in),
            spec_sync_native(token_program, source_info),
        ]
    } else {
        seq![]
    };
    let unwrap = if info.token_b.bytes@ == ETH_PUBKEY@ {
        spec_unwrap_eth(info.wallet_pubkey, destination_info)
    } else {
        seq![]
    };
    seq![spec_wallet_ata_ix(info.wallet_pubkey, source_info, info.token_a)] + funding + seq![
        spec_wallet_ata_ix(info.wallet_pubkey, destination_info, info.token_b),
        spec_swap_ix(
            spec_swap_args(
                info,
                amm,
                authority,
                source_info,
                destination_info,
                sides,
                minimum_amount_out,
            ),
        ),
    ] + unwrap
}

/// The address under which the program acts for the pool of a swap.
pub open spec fn spec_authority(info: SwapInfo) -> Option<(Seq<u8>, u8)> {
    spec_program_address(seq![info.amm_pool_pubkey.bytes@], LIFINITY_PROGRAM_ID@)
}

/// The address of the wallet's token account for a mint.
pub open spec fn spec_wallet_ata(info: SwapInfo, mint: Pubkey) -> Option<(Seq<u8>, u8)> {
    spec_program_address(
        spec_ata_seeds(info.wallet_pubkey, mint, Pubkey { bytes: TOKEN_2022_PROGRAM_ID }),
        ASSOCIATED_TOKEN_PROGRAM_ID@,
    )
}

/// What making the instructions of a swap gives: the instructions, or the
/// first thing that stands in the way.
pub open spec fn spec_prepare_swap(info: SwapInfo, amm: Amm, minimum_amount_out: u64) -> Result<
    (),
    SwapError,
> {
    if spec_authority(info) is None || spec_wallet_ata(info, info.token_a) is None
        || spec_wallet_ata(info, info.token_b) is None {
        Err(SwapError::AddressNotFound)
    } else if spec_trade_direction(info.amm_pool_pubkey, info.token_a, info.token_b) is None {
        Err(SwapError::UnknownTradeDirection)
    } else if spec_pool_sides(info.token_a, amm) is None {
        Err(SwapError::InvalidAmmPool)
    } else {
        Ok(())
    }
}

/// Makes the instructions of a swap through a pool whose record has been
/// read, with the least that the swap is to pay out.
///
/// The addresses of the program's authority and of the wallet's two token
/// accounts are derived; the pool has to trade the two tokens, and the token
/// paid in has to be one of the pool's two. The instructions are those of
/// `spec_swap_instructions` for the derived addresses.
pub fn prepare_swap(swap_info: &SwapInfo, amm: &Amm, minimum_amount_out: u64) -> (res: Result<
    Vec<Instruction>,
    SwapError,
>)
    ensures
        match spec_prepare_swap(*swap_info, *amm, minimum_amount_out) {
            Err(e) => res == Err::<Vec<Instruction>, SwapError>(e),
            Ok(_) => res is Ok && exists|authority: Pubkey, source: Pubkey, destination: Pubkey|
                {
                    &&& spec_authority(*swap_info).unwrap().0 == authority.bytes@
                    &&& spec_wallet_ata(*swap_info, swap_info.token_a).unwrap().0
                        == source.bytes@
                    &&& spec_wallet_ata(*swap_info, swap_info.token_b).unwrap().0
                        == destination.bytes@
                    &&& instruction_views(res.unwrap()@) == #[trigger] spec_swap_instructions(
                        *swap_info,
                        *amm,
                        authority,
                        source,
                        destination,
                        spec_pool_sides(swap_info.token_a, *amm).unwrap(),
                        minimum_amount_out,
                    )
                },
        },
{
    let token_program = Pubkey { bytes: TOKEN_2022_PROGRAM_ID };
    let authority = match derive_program_authority(&swap_info.amm_pool_pubkey) {
        Some((authority, _)) => authority,
        None => {
            return Err(SwapError::AddressNotFound);
        },
    };
    let source_info = match derive_ata(&swap_info.wallet_pubkey, &swap_info.token_a, &token_program) {
        Some((address, _)) => address,
        None => {
            return Err(SwapError::AddressNotFound);
        },
    };
    let destination_info = match derive_ata(
        &swap_info.wallet_pubkey,
        &swap_info.token_b,
        &token_program,
    ) {
        Some((address, _)) => address,
        None => {
            return Err(SwapError::AddressNotFound);
        },
    };
    if determine_trade_direction(
        &swap_info.amm_pool_pubkey,
        &swap_info.token_a,
        &swap_info.token_b,
    ).is_none() {
        return Err(SwapError::UnknownTradeDirection);
    }
    proof {
        lemma_pubkey_equal_by_bytes(swap_info.token_a, amm.token_a_mint);
        lemma_pubkey_equal_by_bytes(swap_info.token_a, amm.token_b_mint);
    }
    let sides = if swap_info.token_a == amm.token_a_mint {
        (amm.token_a_account, amm.token_b_account, amm.token_a_mint, amm.token_b_mint)
    } else if swap_info.token_a == amm.token_b_mint {
        (amm.token_b_account, amm.token_a_account, amm.token_b_mint, amm.token_a_mint)
    } else {
        return Err(SwapError::InvalidAmmPool);
    };
    let ghost wanted = spec_swap_instructions(
        *swap_info,
        *amm,
        authority,
        source_info,
        destination_info,
        sides,
        minimum_amount_out,
    );
    let mut ixs: Vec<Instruction> = Vec::new();
    ixs.push(
        create_ata(
            CreateAtaArgs {
                funding_address: swap_info.wallet_pubkey,
                associated_account_address: source_info,
                wallet_address: swap_info.wallet_pubkey,
                token_mint_address: swap_info.token_a,
                token_program_id: token_program,
                instruction: 1,
            },
        ),
    );
    if swap_info.should_transfer_source {
        ixs.push(system_transfer(&swap_info.wallet_pubkey, &source_info, swap_info.amount_in));
        ixs.push(sync_native(&token_program, &source_info));
    }
    ixs.push(
        create_ata(
            CreateAtaArgs {
                funding_address: swap_info.wallet_pubkey,
                associated_account_address: destination_info,
                wallet_address: swap_info.wallet_pubkey,
                token_mint_address: swap_info.token_b,
                token_program_id: token_program,
                instruction: 1,
            },
        ),
    );
    let args = LifinitySwapArgs {
        authority,
        amm: swap_info.amm_pool_pubkey,
        user_transfer_authority: swap_info.wallet_pubkey,
        source_info,
        destination_info,
        swap_source: sides.0,
        swap_destination: sides.1,
        source_mint: sides.2,
        destination_mint: sides.3,
        pool_mint: amm.pool_mint,
        fee_account: amm.fee_account,
        token_program,
        oracle_main_account: amm.oracle_main_account,
        oracle_sub_account: amm.oracle_sub_account,
        oracle_pc_account: amm.oracle_pc_account,
        amount_in: swap_info.amount_in,
        minimum_amount_out,
    };
    ixs.push(assemble_swap_ix(args));
    if swap_info.token_b == (Pubkey { bytes: ETH_PUBKEY }) {
        let mut unwrap = unwrap_eth(&swap_info.wallet_pubkey, &destination_info);
        ixs.append(&mut unwrap);
    }
    proof {
        assert(instruction_views(ixs@) =~= wanted);
        assert(instruction_views(ixs@) == spec_swap_instructions(
            *swap_info,
            *amm,
            authority,
            source_info,
            destination_info,
            spec_pool_sides(swap_info.token_a, *amm).unwrap(),
            minimum_amount_out,
        ));
    }
    Ok(ixs)
}

/// The swap that a wallet asks to have simulated: `amount_in` of `token_a`
/// for `token_b` through the pool that trades the two, with nothing said of
/// what is to come out. Ether that is paid in has to be wrapped first.
pub fn plan_swap(wallet: &Pubkey, token_a: &Pubkey, token_b: &Pubkey, amount_in: u64) -> (res:
    Result<SwapInfo, SwapError>)
    ensures
        !spec_is_eth_usdc(*token_a, *token_b) && !spec_is_sol_usdc(*token_a, *token_b) ==> res
            == Err::<SwapInfo, SwapError>(SwapError::UnknownPool),
        spec_is_eth_usdc(*token_a, *token_b) || spec_is_sol_usdc(*token_a, *token_b) ==> {
            &&& res is Ok
            &&& res.unwrap().wallet_pubkey == *wallet
            &&& res.unwrap().token_a == *token_a
            &&& res.unwrap().token_b == *token_b
            &&& res.unwrap().amm_pool_pubkey.bytes@ == if spec_is_eth_usdc(*token_a, *token_b) {
                ETH_USDC_AMM_PUBKEY@
            } else {
                SOL_USDC_AMM_PUBKEY@
            }
            &&& res.unwrap().amount_in == amount_in
            &&& res.unwrap().amount_out is None
            &&& res.unwrap().should_transfer_source == (token_a.bytes@ == ETH_PUBKEY@)
        },
{
    let amm_pool_key = match determine_pool_pubkey(token_a, token_b) {
        Some(pubkey) => pubkey,
        None => {
            return Err(SwapError::UnknownPool);
        },
    };
    let should_transfer_source = *token_a == (Pubkey { bytes: ETH_PUBKEY });
    Ok(
        SwapInfo::new(
            wallet,
            token_a,
            token_b,
            &amm_pool_key,
            amount_in,
            None,
            should_transfer_source,
        ),
    )
}

/// What the first line that names a value says the swap pays out; zero
/// where no line names one.
pub open spec fn spec_simulated_amount_out(logs: Seq<String>) -> u64
    decreases logs.len(),
{
    if logs.len() == 0 {
        0
    } else {
        match spec_extract_out_value(logs[0]@) {
            Some(value) => value,
            None => spec_simulated_amount_out(logs.drop_first()),
        }
    }
}

/// Reads from the log of a simulated swap what the swap pays out.
pub fn simulated_amount_out(logs: &Vec<String>) -> (amount: u64)
    ensures
        amount == spec_simulated_amount_out(logs@),
{
    let mut at: usize = 0;
    assert(logs@.skip(0) =~= logs@);
    while at < logs.len()
        invariant
            at <= logs.len(),
            spec_simulated_amount_out(logs@) == spec_simulated_amount_out(logs@.skip(at as int)),
        decreases logs.len() - at,
    {
        proof {
            assert(logs@.skip(at as int).drop_first() =~= logs@.skip(at + 1));
        }
        match extract_out_value(logs[at].as_str()) {
            Some(value) => {
                return value;
            },
            None => {},
        }
        at = at + 1;
    }
    assert(logs@.skip(at as int) =~= Seq::<String>::empty());
    0
}

/// The swap that is sent once the simulation has told what it pays out: the
/// simulated swap with that amount.
pub fn confirm_swap(simulated: &SwapInfo, amount_out: u64) -> (info: SwapInfo)
    ensures
        info == (SwapInfo { amount_out: Some(amount_out), ..*simulated }),
{
    SwapInfo::new(
        &simulated.wallet_pubkey,
        &simulated.token_a,
        &simulated.token_b,
        &simulated.amm_pool_pubkey,
        simulated.amount_in,
        Some(amount_out),
        simulated.should_transfer_source,
    )
}

} // verus!
