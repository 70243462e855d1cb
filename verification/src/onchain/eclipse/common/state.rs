//! Accounts of the chain as their bytes lay them out.

use super::pubkey::Pubkey;
use vstd::bytes::{spec_u64_from_le_bytes, u64_from_le_bytes};
use vstd::prelude::*;
use vstd::slice::slice_subrange;

verus! {

/// Why the bytes of an account are refused.
#[derive(Clone, Copy, Debug, PartialEq, Eq, Structural)]
pub enum StateError {
    /// The bytes are no token account: they are too few, or a tag or the
    /// state has a value that stands for nothing.
    InvalidAccountData,
    /// The bytes end before the record does.
    UnexpectedEnd,
    /// A byte that holds a truth value is neither 0 nor 1.
    InvalidBool,
}

/// The fees of a pool.
#[derive(Clone, Copy, Debug, PartialEq, Eq, Structural)]
pub struct AmmFees {
    pub trade_fee_numerator: u64,
    pub trade_fee_denominator: u64,
    pub owner_trade_fee_numerator: u64,
    pub owner_trade_fee_denominator: u64,
    pub owner_withdraw_fee_numerator: u64,
    pub owner_withdraw_fee_denominator: u64,
    pub host_fee_numerator: u64,
    pub host_fee_denominator: u64,
}

/// The curve of a pool.
#[derive(Clone, Copy, Debug, PartialEq, Eq, Structural)]
pub struct AmmCurve {
    pub curve_type: u8,
    pub curve_parameters: u64,
}

/// The settings and running figures of a pool.
#[derive(Clone, Copy, Debug, PartialEq, Eq, Structural)]
pub struct AmmConfig {
    pub last_price: u64,
    pub last_balanced_price: u64,
    pub config_denominator: u64,
    pub volume_x: u64,
    pub volume_y: u64,
    pub volume_x_in_y: u64,
    pub deposit_cap: u64,
    pub regression_target: u64,
    pub oracle_type: u64,
    pub oracle_status: u64,
    pub oracle_main_slot_limit: u64,
    pub oracle_sub_confidence_limit: u64,
    pub oracle_sub_slot_limit: u64,
    pub oracle_pc_confidence_limit: u64,
    pub oracle_pc_slot_limit: u64,
    pub std_spread: u64,
    pub std_spread_buffer: u64,
    pub spread_coefficient: u64,
    pub price_buffer_coin: i64,
    pub price_buffer_pc: i64,
    pub rebalance_ratio: u64,
    pub fee_trade: u64,
    pub fee_platform: u64,
    pub oracle_main_slot_buffer: u64,
    pub config_temp4: u64,
    pub config_temp5: u64,
    pub config_temp6: u64,
    pub config_temp7: u64,
    pub config_temp8: u64,
}

/// A pool of Lifinity.
#[derive(Clone, Copy, Debug, PartialEq, Eq)]
pub struct Amm {
    pub initializer_key: Pubkey,
    pub initializer_deposit_token_account: Pubkey,
    pub initializer_receive_token_account: Pubkey,
    pub initializer_amount: u64,
    pub taker_amount: u64,
    pub is_initialized: bool,
    pub bump_seed: u8,
    pub freeze_trade: u8,
    pub freeze_deposit: u8,
    pub freeze_withdraw: u8,
    pub base_decimals: u8,
    pub token_program_id: Pubkey,
    pub token_a_account: Pubkey,
    pub token_b_account: Pubkey,
    pub pool_mint: Pubkey,
    pub token_a_mint: Pubkey,
    pub token_b_mint: Pubkey,
    pub fee_account: Pubkey,
    pub oracle_main_account: Pubkey,
    pub oracle_sub_account: Pubkey,
    pub oracle_pc_account: Pubkey,
    pub fees: AmmFees,
    pub curve: AmmCurve,
    pub config: AmmConfig,
    pub amm_p_temp1: Pubkey,
    pub amm_p_temp2: Pubkey,
    pub amm_p_temp3: Pubkey,
    pub amm_p_temp4: Pubkey,
    pub amm_p_temp5: Pubkey,
}

/// The number of bytes that the record of a pool takes.
pub const AMM_LEN: usize = 903;

/// The number of bytes that stand before the record of a pool in its account.
pub const AMM_PREFIX_LEN: usize = 8;

/// The number of bytes of a token account.
pub const ACCOUNT_LEN: usize = 165;

/// The number of 64 bits whose eight bytes start at `at`, lowest byte first.
pub open spec fn spec_read_u64(data: Seq<u8>, at: int) -> u64 {
    spec_u64_from_le_bytes(data.subrange(at, at + 8))
}

/// The signed number of 64 bits whose eight bytes start at `at`, lowest byte
/// first, in two's complement.
pub open spec fn spec_read_i64(data: Seq<u8>, at: int) -> i64 {
    let raw = spec_read_u64(data, at);
    if raw <= 0x7fff_ffff_ffff_ffff {
        raw as i64
    } else {
        (raw - 0x1_0000_0000_0000_0000) as i64
    }
}

/// Reads the address whose 32 bytes start at `at`.
pub fn read_pubkey(data: &[u8], at: usize) -> (key: Pubkey)
    requires
        at + 32 <= data@.len(),
    ensures
        key.bytes@ == data@.subrange(at as int, at + 32),
{
    let limit: usize = data.len();
    let mut bytes: [u8; 32] = [0u8; 32];
    let mut i: usize = 0;
    while i < 32
        invariant
            i <= 32,
            at + 32 <= data@.len(),
            limit == data@.len(),
            forall|k: int| 0 <= k < i ==> bytes@[k] == data@[at + k],
        decreases 32 - i,
    {
        bytes[i] = data[at + i];
        i = i + 1;
    }
    assert(bytes@ =~= data@.subrange(at as int, at + 32));
    Pubkey { bytes }
}

/// Reads the number whose eight bytes start at `at`, lowest byte first.
pub fn read_u64(data: &[u8], at: usize) -> (value: u64)
    requires
        at + 8 <= data@.len(),
    ensures
        value == spec_read_u64(data@, at as int),
{
    let limit: usize = data.len();
    u64_from_le_bytes(slice_subrange(data, at, at + 8))
}

/// Reads the signed number whose eight bytes start at `at`, lowest byte first.
pub fn read_i64(data: &[u8], at: usize) -> (value: i64)
    requires
        at + 8 <= data@.len(),
    ensures
        value == spec_read_i64(data@, at as int),
{
    let raw = read_u64(data, at);
    if raw <= 0x7fff_ffff_ffff_ffff {
        raw as i64
    } else {
        let above: u64 = raw - 0x8000_0000_0000_0000;
        (above as i64) + i64::MIN
    }
}

/// The fees are what the bytes from `at` on say.
pub open spec fn spec_is_fees(fees: AmmFees, data: Seq<u8>, at: int) -> bool {
    &&& fees.trade_fee_numerator == spec_read_u64(data, at + 0)
    &&& fees.trade_fee_denominator == spec_read_u64(data, at + 8)
    &&& fees.owner_trade_fee_numerator == spec_read_u64(data, at + 16)
    &&& fees.owner_trade_fee_denominator == spec_read_u64(data, at + 24)
    &&& fees.owner_withdraw_fee_numerator == spec_read_u64(data, at + 32)
    &&& fees.owner_withdraw_fee_denominator == spec_read_u64(data, at + 40)
    &&& fees.host_fee_numerator == spec_read_u64(data, at + 48)
    &&& fees.host_fee_denominator == spec_read_u64(data, at + 56)
}

/// The settings are what the bytes from `at` on say.
pub open spec fn spec_is_config(config: AmmConfig, data: Seq<u8>, at: int) -> bool {
    &&& config.last_price == spec_read_u64(data, at + 0)
    &&& config.last_balanced_price == spec_read_u64(data, at + 8)
    &&& config.config_denominator == spec_read_u64(data, at + 16)
    &&& config.volume_x == spec_read_u64(data, at + 24)
    &&& config.volume_y == spec_read_u64(data, at + 32)
    &&& config.volume_x_in_y == spec_read_u64(data, at + 40)
    &&& config.deposit_cap == spec_read_u64(data, at + 48)
    &&& config.regression_target == spec_read_u64(data, at + 56)
    &&& config.oracle_type == spec_read_u64(data, at + 64)
    &&& config.oracle_status == spec_read_u64(data, at + 72)
    &&& config.oracle_main_slot_limit == spec_read_u64(data, at + 80)
    &&& config.oracle_sub_confidence_limit == spec_read_u64(data, at + 88)
    &&& config.oracle_sub_slot_limit == spec_read_u64(data, at + 96)
    &&& config.oracle_pc_confidence_limit == spec_read_u64(data, at + 104)
    &&& config.oracle_pc_slot_limit == spec_read_u64(data, at + 112)
    &&& config.std_spread == spec_read_u64(data, at + 120)
    &&& config.std_spread_buffer == spec_read_u64(data, at + 128)
    &&& config.spread_coefficient == spec_read_u64(data, at + 136)
    &&& config.price_buffer_coin == spec_read_i64(data, at + 144)
    &&& config.price_buffer_pc == spec_read_i64(data, at + 152)
    &&& config.rebalance_ratio == spec_read_u64(data, at + 160)
    &&& config.fee_trade == spec_read_u64(data, at + 168)
    &&& config.fee_platform == spec_read_u64(data, at + 176)
    &&& config.oracle_main_slot_buffer == spec_read_u64(data, at + 184)
    &&& config.config_temp4 == spec_read_u64(data, at + 192)
    &&& config.config_temp5 == spec_read_u64(data, at + 200)
    &&& config.config_temp6 == spec_read_u64(data, at + 208)
    &&& config.config_temp7 == spec_read_u64(data, at + 216)
    &&& config.config_temp8 == spec_read_u64(data, at + 224)
}

/// The pool is what the bytes say, field after field: an address takes 32
/// bytes, a number of 64 bits eight with the lowest first, a truth value or
/// a small number one.
pub open spec fn spec_is_amm(amm: Amm, data: Seq<u8>) -> bool {
    &&& amm.initializer_key.bytes@ == data.subrange(0, 32)
    &&& amm.initializer_deposit_token_account.bytes@ == data.subrange(32, 64)
    &&& amm.initializer_receive_token_account.bytes@ == data.subrange(64, 96)
    &&& amm.initializer_amount == spec_read_u64(data, 96)
    &&& amm.taker_amount == spec_read_u64(data, 104)
    &&& amm.is_initialized == (data[112] == 1)
    &&& amm.bump_seed == data[113]
    &&& amm.freeze_trade == data[114]
    &&& amm.freeze_deposit == data[115]
    &&& amm.freeze_withdraw == data[116]
    &&& amm.base_decimals == data[117]
    &&& amm.token_program_id.bytes@ == data.subrange(118, 150)
    &&& amm.token_a_account.bytes@ == data.subrange(150, 182)
    &&& amm.token_b_account.bytes@ == data.subrange(182, 214)
    &&& amm.pool_mint.bytes@ == data.subrange(214, 246)
    &&& amm.token_a_mint.bytes@ == data.subrange(246, 278)
    &&& amm.token_b_mint.bytes@ == data.subrange(278, 310)
    &&& amm.fee_account.bytes@ == data.subrange(310, 342)
    &&& amm.oracle_main_account.bytes@ == data.subrange(342, 374)
    &&& amm.oracle_sub_account.bytes@ == data.subrange(374, 406)
    &&& amm.oracle_pc_account.bytes@ == data.subrange(406, 438)
    &&& spec_is_fees(amm.fees, data, 438)
    &&& amm.curve.curve_type == data[502]
    &&& amm.curve.curve_parameters == spec_read_u64(data, 503)
    &&& spec_is_config(amm.config, data, 511)
    &&& amm.amm_p_temp1.bytes@ == data.subrange(743, 775)
    &&& amm.amm_p_temp2.bytes@ == data.subrange(775, 807)
    &&& amm.amm_p_temp3.bytes@ == data.subrange(807, 839)
    &&& amm.amm_p_temp4.bytes@ == data.subrange(839, 871)
    &&& amm.amm_p_temp5.bytes@ == data.subrange(871, 903)
}

/// What reading a pool from these bytes gives.
pub open spec fn spec_amm_outcome(data: Seq<u8>) -> Result<(), StateError> {
    if data.len() > 112 && data[112] > 1 {
        Err(StateError::InvalidBool)
    } else if data.len() < AMM_LEN {
        Err(StateError::UnexpectedEnd)
    } else {
        Ok(())
    }
}

impl AmmFees {
    /// Reads the fees of a pool from the 64 bytes that start at `at`.
    pub fn read(data: &[u8], at: usize) -> (fees: AmmFees)
        requires
            at + 64 <= data@.len(),
        ensures
            spec_is_fees(fees, data@, at as int),
    {
        let limit: usize = data.len();
        AmmFees {
            trade_fee_numerator: read_u64(data, at + 0),
            trade_fee_denominator: read_u64(data, at + 8),
            owner_trade_fee_numerator: read_u64(data, at + 16),
            owner_trade_fee_denominator: read_u64(data, at + 24),
            owner_withdraw_fee_numerator: read_u64(data, at + 32),
            owner_withdraw_fee_denominator: read_u64(data, at + 40),
            host_fee_numerator: read_u64(data, at + 48),
            host_fee_denominator: read_u64(data, at + 56),
        }
    }
}

impl AmmConfig {
    /// Reads the settings of a pool from the 232 bytes that start at `at`.
    pub fn read(data: &[u8], at: usize) -> (config: AmmConfig)
        requires
            at + 232 <= data@.len(),
        ensures
            spec_is_config(config, data@, at as int),
    {
        let limit: usize = data.len();
        AmmConfig {
            last_price: read_u64(data, at + 0),
            last_balanced_price: read_u64(data, at + 8),
            config_denominator: read_u64(data, at + 16),
            volume_x: read_u64(data, at + 24),
            volume_y: read_u64(data, at + 32),
            volume_x_in_y: read_u64(data, at + 40),
            deposit_cap: read_u64(data, at + 48),
            regression_target: read_u64(data, at + 56),
            oracle_type: read_u64(data, at + 64),
            oracle_status: read_u64(data, at + 72),
            oracle_main_slot_limit: read_u64(data, at + 80),
            oracle_sub_confidence_limit: read_u64(data, at + 88),
            oracle_sub_slot_limit: read_u64(data, at + 96),
            oracle_pc_confidence_limit: read_u64(data, at + 104),
            oracle_pc_slot_limit: read_u64(data, at + 112),
            std_spread: read_u64(data, at + 120),
            std_spread_buffer: read_u64(data, at + 128),
            spread_coefficient: read_u64(data, at + 136),
            price_buffer_coin: read_i64(data, at + 144),
            price_buffer_pc: read_i64(data, at + 152),
            rebalance_ratio: read_u64(data, at + 160),
            fee_trade: read_u64(data, at + 168),
            fee_platform: read_u64(data, at + 176),
            oracle_main_slot_buffer: read_u64(data, at + 184),
            config_temp4: read_u64(data, at + 192),
            config_temp5: read_u64(data, at + 200),
            config_temp6: read_u64(data, at + 208),
            config_temp7: read_u64(data, at + 216),
            config_temp8: read_u64(data, at + 224),
        }
    }
}

impl Amm {
    /// Reads a pool from the bytes of its record.
    ///
    /// The fields follow each other without gaps; bytes after the record are
    /// not looked at. The bytes are refused where the byte of the one truth
    /// value is neither 0 nor 1, and otherwise where they are fewer than the
    /// record takes.
    pub fn deserialize(data: &[u8]) -> (res: Result<Amm, StateError>)
        ensures
            match spec_amm_outcome(data@) {
                Err(e) => res == Err::<Amm, StateError>(e),
                Ok(_) => res is Ok && spec_is_amm(res.unwrap(), data@),
            },
    {
        if data.len() > 112 && data[112] > 1 {
            return Err(StateError::InvalidBool);
        }
        if data.len() < AMM_LEN {
            return Err(StateError::UnexpectedEnd);
        }
        Ok(
            Amm {
                initializer_key: read_pubkey(data, 0),
                initializer_deposit_token_account: read_pubkey(data, 32),
                initializer_receive_token_account: read_pubkey(data, 64),
                initializer_amount: read_u64(data, 96),
                taker_amount: read_u64(data, 104),
                is_initialized: data[112] == 1,
                bump_seed: data[113],
                freeze_trade: data[114],
                freeze_deposit: data[115],
                freeze_withdraw: data[116],
                base_decimals: data[117],
                token_program_id: read_pubkey(data, 118),
                token_a_account: read_pubkey(data, 150),
                token_b_account: read_pubkey(data, 182),
                pool_mint: read_pubkey(data, 214),
                token_a_mint: read_pubkey(data, 246),
                token_b_mint: read_pubkey(data, 278),
                fee_account: read_pubkey(data, 310),
                oracle_main_account: read_pubkey(data, 342),
                oracle_sub_account: read_pubkey(data, 374),
                oracle_pc_account: read_pubkey(data, 406),
                fees: AmmFees::read(data, 438),
                curve: AmmCurve { curve_type: data[502], curve_parameters: read_u64(data, 503) },
                config: AmmConfig::read(data, 511),
                amm_p_temp1: read_pubkey(data, 743),
                amm_p_temp2: read_pubkey(data, 775),
                amm_p_temp3: read_pubkey(data, 807),
                amm_p_temp4: read_pubkey(data, 839),
                amm_p_temp5: read_pubkey(data, 871),
            },
        )
    }

    /// Reads a pool from the bytes of its account, in which eight bytes stand
    /// before the record.
    pub fn from_account_data(data: &[u8]) -> (res: Result<Amm, StateError>)
        ensures
            data@.len() < AMM_PREFIX_LEN ==> res == Err::<Amm, StateError>(
                StateError::UnexpectedEnd,
            ),
            data@.len() >= AMM_PREFIX_LEN ==> match spec_amm_outcome(
                data@.subrange(AMM_PREFIX_LEN as int, data@.len() as int),
            ) {
                Err(e) => res == Err::<Amm, StateError>(e),
                Ok(_) => res is Ok && spec_is_amm(
                    res.unwrap(),
                    data@.subrange(AMM_PREFIX_LEN as int, data@.len() as int),
                ),
            },
    {
        if data.len() < AMM_PREFIX_LEN {
            return Err(StateError::UnexpectedEnd);
        }
        Amm::deserialize(slice_subrange(data, AMM_PREFIX_LEN, data.len()))
    }
}

/// The state of a token account.
#[derive(Clone, Copy, Debug, PartialEq, Eq, Structural)]
pub enum AccountState {
    /// The account is not in use yet.
    Uninitialized,
    /// The account is in use.
    Initialized,
    /// The account is in use and may not move its tokens.
    Frozen,
}

impl Default for AccountState {
    fn default() -> (state: AccountState)
        ensures
            state == AccountState::Uninitialized,
    {
        AccountState::Uninitialized
    }
}

/// The state that a byte stands for, if it stands for one.
pub open spec fn spec_account_state(byte: u8) -> Option<AccountState> {
    if byte == 0 {
        Some(AccountState::Uninitialized)
    } else if byte == 1 {
        Some(AccountState::Initialized)
    } else if byte == 2 {
        Some(AccountState::Frozen)
    } else {
        None
    }
}

impl AccountState {
    /// The state that a byte stands for, if it stands for one.
    pub fn try_from_primitive(byte: u8) -> (state: Option<AccountState>)
        ensures
            state == spec_account_state(byte),
    {
        if byte == 0 {
            Some(AccountState::Uninitialized)
        } else if byte == 1 {
            Some(AccountState::Initialized)
        } else if byte == 2 {
            Some(AccountState::Frozen)
        } else {
            None
        }
    }

    /// The byte that stands for the state.
    pub fn into_primitive(self) -> (byte: u8)
        ensures
            spec_account_state(byte) == Some(self),
    {
        match self {
            AccountState::Uninitialized => 0,
            AccountState::Initialized => 1,
            AccountState::Frozen => 2,
        }
    }
}

/// A token account.
#[derive(Clone, Copy, Debug, PartialEq, Eq)]
pub struct Account {
    pub mint: Pubkey,
    pub owner: Pubkey,
    pub amount: u64,
    pub delegate: Option<Pubkey>,
    pub state: AccountState,
    pub is_native: Option<u64>,
    pub delegated_amount: u64,
    pub close_authority: Option<Pubkey>,
}

/// What the four bytes of a tag say: 0 for nothing, 1 for a value, lowest
/// byte first; anything else is no tag.
pub open spec fn spec_tag(data: Seq<u8>, at: int) -> Option<bool> {
    if data[at + 1] != 0 || data[at + 2] != 0 || data[at + 3] != 0 {
        None
    } else if data[at] == 0 {
        Some(false)
    } else if data[at] == 1 {
        Some(true)
    } else {
        None
    }
}

/// The optional address is what the 36 bytes from `at` on say.
pub open spec fn spec_is_coption_key(key: Option<Pubkey>, data: Seq<u8>, at: int) -> bool {
    match spec_tag(data, at) {
        Some(true) => key is Some && key.unwrap().bytes@ == data.subrange(at + 4, at + 36),
        _ => key is None,
    }
}

/// The optional number is what the 12 bytes from `at` on say.
pub open spec fn spec_is_coption_u64(value: Option<u64>, data: Seq<u8>, at: int) -> bool {
    match spec_tag(data, at) {
        Some(true) => value == Some(spec_read_u64(data, at + 4)),
        _ => value is None,
    }
}

/// The bytes are a token account: they are enough, the three tags are tags
/// and the state is a state.
pub open spec fn spec_account_valid(data: Seq<u8>) -> bool {
    &&& data.len() >= ACCOUNT_LEN
    &&& spec_tag(data, 72) is Some
    &&& spec_account_state(data[108]) is Some
    &&& spec_tag(data, 109) is Some
    &&& spec_tag(data, 129) is Some
}

/// The token account is what the bytes say.
pub open spec fn spec_is_account(account: Account, data: Seq<u8>) -> bool {
    &&& account.mint.bytes@ == data.subrange(0, 32)
    &&& account.owner.bytes@ == data.subrange(32, 64)
    &&& account.amount == spec_read_u64(data, 64)
    &&& spec_is_coption_key(account.delegate, data, 72)
    &&& Some(account.state) == spec_account_state(data[108])
    &&& spec_is_coption_u64(account.is_native, data, 109)
    &&& account.delegated_amount == spec_read_u64(data, 121)
    &&& spec_is_coption_key(account.close_authority, data, 129)
}

/// Reads the tag whose four bytes start at `at`.
fn read_tag(data: &[u8], at: usize) -> (tag: Option<bool>)
    requires
        at + 4 <= data@.len(),
    ensures
        tag == spec_tag(data@, at as int),
{
    let limit: usize = data.len();
    if data[at + 1] != 0 || data[at + 2] != 0 || data[at + 3] != 0 {
        None
    } else if data[at] == 0 {
        Some(false)
    } else if data[at] == 1 {
        Some(true)
    } else {
        None
    }
}

/// Reads an optional address from the 36 bytes that start at `at`: a tag and
/// the address. The bytes are refused where the tag is none.
pub fn unpack_coption_key(data: &[u8], at: usize) -> (res: Result<Option<Pubkey>, StateError>)
    requires
        at + 36 <= data@.len(),
    ensures
        spec_tag(data@, at as int) is None ==> res == Err::<Option<Pubkey>, StateError>(
            StateError::InvalidAccountData,
        ),
        spec_tag(data@, at as int) is Some ==> res is Ok && spec_is_coption_key(
            res.unwrap(),
            data@,
            at as int,
        ),
{
    let limit: usize = data.len();
    match read_tag(data, at) {
        None => Err(StateError::InvalidAccountData),
        Some(false) => Ok(None),
        Some(true) => Ok(Some(read_pubkey(data, at + 4))),
    }
}

/// Reads an optional number from the 12 bytes that start at `at`: a tag and
/// the number. The bytes are refused where the tag is none.
pub fn unpack_coption_u64(data: &[u8], at: usize) -> (res: Result<Option<u64>, StateError>)
    requires
        at + 12 <= data@.len(),
    ensures
        spec_tag(data@, at as int) is None ==> res == Err::<Option<u64>, StateError>(
            StateError::InvalidAccountData,
        ),
        spec_tag(data@, at as int) is Some ==> res is Ok && spec_is_coption_u64(
            res.unwrap(),
            data@,
            at as int,
        ),
{
    let limit: usize = data.len();
    match read_tag(data, at) {
        None => Err(StateError::InvalidAccountData),
        Some(false) => Ok(None),
        Some(true) => Ok(Some(read_u64(data, at + 4))),
    }
}

impl Account {
    /// Reads a token account from its bytes.
    ///
    /// The first 165 bytes are read: the mint, the owner, the amount, the
    /// optional delegate, the state, the optional amount of a native
    /// account, the delegated amount and the optional authority to close.
    /// The bytes are refused, as `InvalidAccountData`, where they are fewer
    /// or where a tag or the state stands for nothing.
    pub fn deserialize(src: &[u8]) -> (res: Result<Account, StateError>)
        ensures
            !spec_account_valid(src@) ==> res == Err::<Account, StateError>(
                StateError::InvalidAccountData,
            ),
            spec_account_valid(src@) ==> res is Ok && spec_is_account(res.unwrap(), src@),
    {
        if src.len() < ACCOUNT_LEN {
            return Err(StateError::InvalidAccountData);
        }
        let delegate = match unpack_coption_key(src, 72) {
            Ok(delegate) => delegate,
            Err(e) => {
                return Err(e);
            },
        };
        let state = match AccountState::try_from_primitive(src[108]) {
            Some(state) => state,
            None => {
                return Err(StateError::InvalidAccountData);
            },
        };
        let is_native = match unpack_coption_u64(src, 109) {
            Ok(is_native) => is_native,
            Err(e) => {
                return Err(e);
            },
        };
        let close_authority = match unpack_coption_key(src, 129) {
            Ok(close_authority) => close_authority,
            Err(e) => {
                return Err(e);
            },
        };
        Ok(
            Account {
                mint: read_pubkey(src, 0),
                owner: read_pubkey(src, 32),
                amount: read_u64(src, 64),
                delegate,
                state,
                is_native,
                delegated_amount: read_u64(src, 121),
                close_authority,
            },
        )
    }
}

} // verus!
