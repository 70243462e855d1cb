use eclipse_warmup::onchain::eclipse::common::constants::{
    ASSOCIATED_TOKEN_PROGRAM_ID, ETH_PUBKEY, ETH_USDC_AMM_PUBKEY, LIFINITY_PROGRAM_ID, SOL_PUBKEY,
    SOL_USDC_AMM_PUBKEY, SYSTEM_PROGRAM_ID, TOKEN_2022_PROGRAM_ID, USDC_PUBKEY,
};
use eclipse_warmup::onchain::eclipse::common::derive::{
    derive_ata, derive_program_authority, key_bytes,
};
use eclipse_warmup::onchain::eclipse::common::ixs::{
    append_bytes, close_account, create_ata, function_hash, sync_native, unwrap_eth,
    InstructionData,
};
use eclipse_warmup::onchain::eclipse::common::pubkey::Pubkey;
use eclipse_warmup::onchain::eclipse::common::state::{
    read_i64, read_pubkey, read_u64, unpack_coption_key, unpack_coption_u64, Account,
    AccountState, Amm, StateError,
};
use eclipse_warmup::onchain::eclipse::common::token::{same_text, Token};
use eclipse_warmup::onchain::eclipse::common::typedefs::{
    AccountMeta, CreateAtaArgs, Instruction, InstructionArgs,
};
use eclipse_warmup::onchain::eclipse::lifinity::math::get_amount_out;
use eclipse_warmup::onchain::eclipse::lifinity::swap::{
    confirm_swap, plan_swap, prepare_swap, quoted_minimum, simulated_amount_out, swap_reserves,
    SwapError,
};
use eclipse_warmup::onchain::eclipse::lifinity::typedefs::{
    LifinitySwapArgs, LifinitySwapInput, SwapInfo, TradeDirection,
};
use eclipse_warmup::onchain::eclipse::lifinity::utils::{
    assemble_swap_ix, chars_of, determine_pool_pubkey, determine_trade_direction,
    extract_out_value, find,
};
use eclipse_warmup::onchain::eclipse::underdog::create::{
    generate_random_url, random_collection_body, url_from,
};
use eclipse_warmup::onchain::eclipse::underdog::schema::CollectionsBody;
use eclipse_warmup::onchain::evm::types::Token as EvmToken;
use std::str::FromStr;

fn key(bytes: [u8; 32]) -> Pubkey {
    Pubkey { bytes }
}

fn numbered(n: u8) -> Pubkey {
    Pubkey { bytes: [n; 32] }
}

fn sdk(key: &Pubkey) -> solana_sdk::pubkey::Pubkey {
    solana_sdk::pubkey::Pubkey::new_from_array(key.bytes)
}

fn writable(pubkey: Pubkey, is_signer: bool) -> AccountMeta {
    AccountMeta { pubkey, is_signer, is_writable: true }
}

fn readonly(pubkey: Pubkey, is_signer: bool) -> AccountMeta {
    AccountMeta { pubkey, is_signer, is_writable: false }
}

/// The record of a pool whose field number `n` is filled with the byte `n`
/// or holds the number `n`.
fn amm_bytes() -> Vec<u8> {
    let mut data = Vec::new();
    for n in 1..=3u8 {
        data.extend_from_slice(&[n; 32]);
    }
    data.extend_from_slice(&4u64.to_le_bytes());
    data.extend_from_slice(&5u64.to_le_bytes());
    data.extend_from_slice(&[1, 7, 8, 9, 10, 11]);
    for n in 12..=21u8 {
        data.extend_from_slice(&[n; 32]);
    }
    for n in 0..8u64 {
        data.extend_from_slice(&(100 + n).to_le_bytes());
    }
    data.push(3);
    data.extend_from_slice(&0x0102_0304_0506_0708u64.to_le_bytes());
    for n in 0..29u64 {
        if n == 18 {
            data.extend_from_slice(&(-5i64).to_le_bytes());
        } else if n == 19 {
            data.extend_from_slice(&i64::MIN.to_le_bytes());
        } else {
            data.extend_from_slice(&(200 + n).to_le_bytes());
        }
    }
    for n in 31..=35u8 {
        data.extend_from_slice(&[n; 32]);
    }
    assert_eq!(data.len(), 903);
    data
}

fn token_account_bytes(amount: u64) -> Vec<u8> {
    let mut data = Vec::new();
    data.extend_from_slice(&[1; 32]);
    data.extend_from_slice(&[2; 32]);
    data.extend_from_slice(&amount.to_le_bytes());
    data.extend_from_slice(&[1, 0, 0, 0]);
    data.extend_from_slice(&[3; 32]);
    data.push(1);
    data.extend_from_slice(&[1, 0, 0, 0]);
    data.extend_from_slice(&77u64.to_le_bytes());
    data.extend_from_slice(&9u64.to_le_bytes());
    data.extend_from_slice(&[0, 0, 0, 0]);
    data.extend_from_slice(&[4; 32]);
    assert_eq!(data.len(), 165);
    data
}

#[test]
fn constants_are_the_addresses_they_name() {
    for (bytes, text) in [
        (SYSTEM_PROGRAM_ID, "11111111111111111111111111111111"),
        (TOKEN_2022_PROGRAM_ID, "TokenzQdBNbLqP5VEhdkAS6EPFLC1PHnBqCXEpPxuEb"),
        (ASSOCIATED_TOKEN_PROGRAM_ID, "ATokenGPvbdGVxr1b2hvZbsiqW5xWH25efTNsLJA8knL"),
        (ETH_PUBKEY, "9pan9bMn5HatX4EJdBwg9VgCa7Uz5HL8N1m5D3NdXejP"),
        (USDC_PUBKEY, "AKEWE7Bgh87GPp171b4cJPSSZfmZwQ3KaqYqXoKLNAEE"),
        (SOL_PUBKEY, "BeRUj3h7BqkbdfFU7FBNYbodgf8GCHodzKvF9aVjNNfL"),
        (LIFINITY_PROGRAM_ID, "4UsSbJQZJTfZDFrgvcPBRCSg5BbcQE6dobnriCafzj12"),
        (ETH_USDC_AMM_PUBKEY, "64EYB9hAmVJ9kpBNLkmaHhiVnGdr5PJEwi4K7PdxBiLH"),
        (SOL_USDC_AMM_PUBKEY, "8cCS9KGb1nArpEJPExfQzAk3VKWS2Zc5KdTmqYYFTkni"),
    ] {
        assert_eq!(solana_sdk::pubkey::Pubkey::from_str(text).unwrap().to_bytes(), bytes);
    }
    assert_eq!(solana_sdk::system_program::id().to_bytes(), SYSTEM_PROGRAM_ID);
}

#[test]
fn pubkeys_compare_by_bytes() {
    let mut other = [9u8; 32];
    assert!(numbered(9) == key(other));
    other[31] = 8;
    assert!(numbered(9) != key(other));
    assert_eq!(key_bytes(&key(other)), other.to_vec());
}

#[test]
fn function_hash_is_the_start_of_the_digest() {
    // sha256("global:swap") starts with f8c69e91e17587c8.
    assert_eq!(function_hash("swap"), [0xf8, 0xc6, 0x9e, 0x91, 0xe1, 0x75, 0x87, 0xc8]);
    let digest = solana_sdk::hash::hash(b"global:initialize").to_bytes();
    assert_eq!(function_hash("initialize"), digest[..8]);
    assert_ne!(function_hash("swap"), function_hash("initialize"));
    assert_eq!(LifinitySwapInput::get_function_hash(), function_hash("swap"));
    assert_eq!(LifinitySwapInput::instruction_name(), "swap");
}

#[test]
fn swap_input_is_hash_then_two_numbers() {
    let input = LifinitySwapInput::new(0x0102030405060708, 3);
    assert_eq!(input.amount_in(), 0x0102030405060708);
    assert_eq!(input.minimum_amount_out(), 3);
    let mut tail = Vec::new();
    input.serialize(&mut tail);
    assert_eq!(tail, vec![8, 7, 6, 5, 4, 3, 2, 1, 3, 0, 0, 0, 0, 0, 0, 0]);
    let data = input.get_data();
    assert_eq!(data[..8], [0xf8, 0xc6, 0x9e, 0x91, 0xe1, 0x75, 0x87, 0xc8]);
    assert_eq!(data[8..], tail[..]);
}

#[test]
fn append_bytes_extends_the_buffer() {
    let mut buffer = vec![1, 2];
    append_bytes(&mut buffer, &[3, 4, 5]);
    append_bytes(&mut buffer, &[]);
    assert_eq!(buffer, vec![1, 2, 3, 4, 5]);
}

#[test]
fn create_ata_names_six_accounts() {
    let ix = create_ata(CreateAtaArgs {
        funding_address: numbered(1),
        associated_account_address: numbered(2),
        wallet_address: numbered(3),
        token_mint_address: numbered(4),
        token_program_id: numbered(5),
        instruction: 1,
    });
    assert_eq!(
        ix,
        Instruction {
            program_id: key(ASSOCIATED_TOKEN_PROGRAM_ID),
            accounts: vec![
                writable(numbered(1), true),
                writable(numbered(2), false),
                readonly(numbered(3), false),
                readonly(numbered(4), false),
                readonly(key(SYSTEM_PROGRAM_ID), false),
                readonly(numbered(5), false),
            ],
            data: vec![1],
        }
    );
}

#[test]
fn sync_native_and_close_account_have_their_codes() {
    assert_eq!(
        sync_native(&numbered(1), &numbered(2)),
        Instruction {
            program_id: numbered(1),
            accounts: vec![writable(numbered(2), false)],
            data: vec![17]
        }
    );
    assert_eq!(
        close_account(&numbered(1), &numbered(2), &numbered(3), &numbered(4), &[]),
        Instruction {
            program_id: numbered(1),
            accounts: vec![
                writable(numbered(2), false),
                writable(numbered(3), false),
                readonly(numbered(4), true)
            ],
            data: vec![9]
        }
    );
    let with_signers = close_account(
        &numbered(1),
        &numbered(2),
        &numbered(3),
        &numbered(4),
        &[numbered(5), numbered(6)],
    );
    assert_eq!(
        with_signers.accounts,
        vec![
            writable(numbered(2), false),
            writable(numbered(3), false),
            readonly(numbered(4), false),
            readonly(numbered(5), true),
            readonly(numbered(6), true)
        ]
    );
}

#[test]
fn unwrap_eth_syncs_and_closes() {
    let ixs = unwrap_eth(&numbered(1), &numbered(2));
    assert_eq!(ixs.len(), 2);
    assert_eq!(ixs[0], sync_native(&key(TOKEN_2022_PROGRAM_ID), &numbered(2)));
    assert_eq!(
        ixs[1],
        close_account(
            &key(TOKEN_2022_PROGRAM_ID),
            &numbered(2),
            &numbered(1),
            &numbered(1),
            &[numbered(1)]
        )
    );
}

#[test]
fn derived_addresses_are_those_of_the_chain_library() {
    let wallet = numbered(11);
    let mint = key(USDC_PUBKEY);
    let program = key(TOKEN_2022_PROGRAM_ID);
    let (address, bump) = derive_ata(&wallet, &mint, &program).unwrap();
    let expected = solana_sdk::pubkey::Pubkey::find_program_address(
        &[&wallet.bytes, &program.bytes, &mint.bytes],
        &sdk(&key(ASSOCIATED_TOKEN_PROGRAM_ID)),
    );
    assert_eq!((sdk(&address), bump), expected);
    assert!(address != wallet);

    let pool = key(ETH_USDC_AMM_PUBKEY);
    let (authority, bump) = derive_program_authority(&pool).unwrap();
    let expected = solana_sdk::pubkey::Pubkey::find_program_address(
        &[&pool.bytes],
        &sdk(&key(LIFINITY_PROGRAM_ID)),
    );
    assert_eq!((sdk(&authority), bump), expected);
    assert!(authority != pool);
}

#[test]
fn readers_take_bytes_lowest_first() {
    let mut data = vec![0u8; 4];
    data.extend_from_slice(&0x1122_3344_5566_7788u64.to_le_bytes());
    data.extend_from_slice(&(-2i64).to_le_bytes());
    data.extend_from_slice(&[7; 32]);
    assert_eq!(read_u64(&data, 4), 0x1122_3344_5566_7788);
    assert_eq!(read_i64(&data, 12), -2);
    assert_eq!(read_i64(&data, 4), 0x1122_3344_5566_7788);
    assert_eq!(read_pubkey(&data, 20), numbered(7));
    assert_eq!(read_u64(&[1, 0, 0, 0, 0, 0, 0, 0], 0), 1);
}

#[test]
fn coptions_need_a_proper_tag() {
    let mut data = vec![1, 0, 0, 0];
    data.extend_from_slice(&[5; 32]);
    assert_eq!(unpack_coption_key(&data, 0), Ok(Some(numbered(5))));
    data[0] = 0;
    assert_eq!(unpack_coption_key(&data, 0), Ok(None));
    data[0] = 2;
    assert_eq!(unpack_coption_key(&data, 0), Err(StateError::InvalidAccountData));
    data[0] = 1;
    data[3] = 1;
    assert_eq!(unpack_coption_key(&data, 0), Err(StateError::InvalidAccountData));

    let mut number = vec![1, 0, 0, 0];
    number.extend_from_slice(&300u64.to_le_bytes());
    assert_eq!(unpack_coption_u64(&number, 0), Ok(Some(300)));
    number[0] = 0;
    assert_eq!(unpack_coption_u64(&number, 0), Ok(None));
    number[1] = 9;
    assert_eq!(unpack_coption_u64(&number, 0), Err(StateError::InvalidAccountData));
}

#[test]
fn token_account_is_read_field_by_field() {
    let account = Account::deserialize(&token_account_bytes(123_456)).unwrap();
    assert_eq!(
        account,
        Account {
            mint: numbered(1),
            owner: numbered(2),
            amount: 123_456,
            delegate: Some(numbered(3)),
            state: AccountState::Initialized,
            is_native: Some(77),
            delegated_amount: 9,
            close_authority: None,
        }
    );
    let mut longer = token_account_bytes(5);
    longer.extend_from_slice(&[0xff; 10]);
    assert_eq!(Account::deserialize(&longer).unwrap().amount, 5);
}

#[test]
fn token_account_refuses_bad_bytes() {
    let good = token_account_bytes(1);
    assert_eq!(Account::deserialize(&good[..164]), Err(StateError::InvalidAccountData));
    assert_eq!(Account::deserialize(&[]), Err(StateError::InvalidAccountData));
    for (at, value) in [(72usize, 2u8), (75, 1), (108, 3), (109, 5), (129, 2), (132, 1)] {
        let mut bad = good.clone();
        bad[at] = value;
        assert_eq!(Account::deserialize(&bad), Err(StateError::InvalidAccountData));
    }
}

#[test]
fn account_state_has_three_values() {
    assert_eq!(AccountState::try_from_primitive(0), Some(AccountState::Uninitialized));
    assert_eq!(AccountState::try_from_primitive(1), Some(AccountState::Initialized));
    assert_eq!(AccountState::try_from_primitive(2), Some(AccountState::Frozen));
    assert_eq!(AccountState::try_from_primitive(3), None);
    assert_eq!(AccountState::Frozen.into_primitive(), 2);
    assert_eq!(AccountState::default(), AccountState::Uninitialized);
}

#[test]
fn pool_is_read_field_by_field() {
    let amm = Amm::deserialize(&amm_bytes()).unwrap();
    assert_eq!(amm.initializer_key, numbered(1));
    assert_eq!(amm.initializer_receive_token_account, numbered(3));
    assert_eq!((amm.initializer_amount, amm.taker_amount), (4, 5));
    assert!(amm.is_initialized);
    assert_eq!(
        (amm.bump_seed, amm.freeze_trade, amm.freeze_deposit, amm.freeze_withdraw, amm.base_decimals),
        (7, 8, 9, 10, 11)
    );
    assert_eq!(amm.token_program_id, numbered(12));
    assert_eq!(amm.token_a_account, numbered(13));
    assert_eq!(amm.token_b_account, numbered(14));
    assert_eq!(amm.pool_mint, numbered(15));
    assert_eq!(amm.token_a_mint, numbered(16));
    assert_eq!(amm.token_b_mint, numbered(17));
    assert_eq!(amm.fee_account, numbered(18));
    assert_eq!(amm.oracle_main_account, numbered(19));
    assert_eq!(amm.oracle_sub_account, numbered(20));
    assert_eq!(amm.oracle_pc_account, numbered(21));
    assert_eq!(amm.fees.trade_fee_numerator, 100);
    assert_eq!(amm.fees.host_fee_denominator, 107);
    assert_eq!(amm.curve.curve_type, 3);
    assert_eq!(amm.curve.curve_parameters, 0x0102_0304_0506_0708);
    assert_eq!(amm.config.last_price, 200);
    assert_eq!(amm.config.spread_coefficient, 217);
    assert_eq!(amm.config.price_buffer_coin, -5);
    assert_eq!(amm.config.price_buffer_pc, i64::MIN);
    assert_eq!(amm.config.rebalance_ratio, 220);
    assert_eq!(amm.config.config_temp8, 228);
    assert_eq!(amm.amm_p_temp1, numbered(31));
    assert_eq!(amm.amm_p_temp5, numbered(35));
}

#[test]
fn pool_refuses_short_bytes_and_bad_truth_values() {
    let good = amm_bytes();
    assert_eq!(Amm::deserialize(&good[..902]), Err(StateError::UnexpectedEnd));
    assert_eq!(Amm::deserialize(&[]), Err(StateError::UnexpectedEnd));
    let mut bad = good.clone();
    bad[112] = 2;
    assert_eq!(Amm::deserialize(&bad), Err(StateError::InvalidBool));
    assert_eq!(Amm::deserialize(&bad[..113]), Err(StateError::InvalidBool));
    assert_eq!(Amm::deserialize(&bad[..112]), Err(StateError::UnexpectedEnd));
    let mut off = good.clone();
    off[112] = 0;
    assert!(!Amm::deserialize(&off).unwrap().is_initialized);

    let mut account = vec![0xaa; 8];
    account.extend_from_slice(&good);
    assert_eq!(Amm::from_account_data(&account).unwrap(), Amm::deserialize(&good).unwrap());
    assert_eq!(Amm::from_account_data(&account[..7]), Err(StateError::UnexpectedEnd));
    // Without the eight bytes in front every field is read eight bytes late.
    assert_eq!(Amm::from_account_data(&good), Err(StateError::InvalidBool));
    assert_eq!(Amm::from_account_data(&account[..910]), Err(StateError::UnexpectedEnd));
}

#[test]
fn tokens_are_found_by_id_and_by_mint() {
    let eth = Token::eth();
    assert_eq!((eth.decimals, eth.symbol, eth.is_native, eth.coinlore_id), (9, "ETH", true, "80"));
    assert_eq!(eth.mint, key(ETH_PUBKEY));
    let usdc = Token::usdc();
    assert_eq!((usdc.decimals, usdc.symbol, usdc.is_native), (6, "USDC", false));
    let sol = Token::sol();
    assert_eq!((sol.decimals, sol.symbol, sol.coinlore_id), (9, "SOL", "48543"));
    assert!(Token::from_coinlore_id("80").unwrap().same(&eth));
    assert!(Token::from_coinlore_id("48543").unwrap().same(&sol));
    assert!(Token::from_coinlore_id("33285").unwrap().same(&usdc));
    assert!(Token::from_coinlore_id("1").is_none());
    assert!(Token::try_from(key(SOL_PUBKEY)).unwrap().same(&sol));
    assert!(Token::try_from(key(ETH_PUBKEY)).unwrap().same(&eth));
    assert!(Token::try_from(key(USDC_PUBKEY)).unwrap().same(&usdc));
    assert!(Token::try_from(numbered(1)).is_none());
    assert!(!eth.same(&sol));
    assert!(same_text("abc", "abc"));
    assert!(!same_text("abc", "abd"));
}

#[test]
fn paired_token_is_usdc_or_one_of_the_others() {
    assert!(Token::get_lifinity_paired_token(&Token::eth()).same(&Token::usdc()));
    assert!(Token::get_lifinity_paired_token(&Token::sol()).same(&Token::usdc()));
    let mut seen_eth = false;
    let mut seen_sol = false;
    for _ in 0..200 {
        let token = Token::get_lifinity_paired_token(&Token::usdc());
        seen_eth = seen_eth || token.same(&Token::eth());
        seen_sol = seen_sol || token.same(&Token::sol());
        assert!(token.same(&Token::eth()) || token.same(&Token::sol()));
    }
    assert!(seen_eth && seen_sol);
}

#[test]
fn amount_out_follows_the_constant_product() {
    // fee = 1000 * 25 / 10000 = 2, net = 998, out = 2000000 * 998 / (1000000 + 998) = 1994
    assert_eq!(get_amount_out(1_000, 1_000_000, 2_000_000, TradeDirection::AtoB), Some(1_994));
    // the other way: out = 1000000 * 998 / (2000000 + 998) = 498
    assert_eq!(get_amount_out(1_000, 1_000_000, 2_000_000, TradeDirection::BtoA), Some(498));
    assert_eq!(get_amount_out(0, 5, 7, TradeDirection::AtoB), Some(0));
    assert_eq!(get_amount_out(399, 1_000, 1_000, TradeDirection::AtoB), Some(285));
    assert_eq!(get_amount_out(400, 1_000, 1_000, TradeDirection::AtoB), Some(285));
}

#[test]
fn amount_out_is_undefined_on_overflow_or_empty_pool() {
    assert_eq!(get_amount_out(0, 0, 100, TradeDirection::AtoB), None);
    assert_eq!(get_amount_out(u64::MAX, 1, 1, TradeDirection::AtoB), None);
    assert_eq!(get_amount_out(u64::MAX / 25 + 1, 1, 1, TradeDirection::AtoB), None);
    assert_eq!(get_amount_out(1_000, u64::MAX, 1, TradeDirection::AtoB), None);
    assert_eq!(get_amount_out(1_000, 1, u64::MAX, TradeDirection::BtoA), None);
    assert!(get_amount_out(u64::MAX / 25, 1, u64::MAX, TradeDirection::AtoB).is_some());
}

#[test]
fn trade_direction_follows_pool_and_pair() {
    let (eth, usdc, sol) = (key(ETH_PUBKEY), key(USDC_PUBKEY), key(SOL_PUBKEY));
    let (eth_pool, sol_pool) = (key(ETH_USDC_AMM_PUBKEY), key(SOL_USDC_AMM_PUBKEY));
    assert_eq!(determine_trade_direction(&eth_pool, &eth, &usdc), Some(TradeDirection::AtoB));
    assert_eq!(determine_trade_direction(&eth_pool, &usdc, &eth), Some(TradeDirection::BtoA));
    assert_eq!(determine_trade_direction(&sol_pool, &sol, &usdc), Some(TradeDirection::AtoB));
    assert_eq!(determine_trade_direction(&sol_pool, &usdc, &sol), Some(TradeDirection::BtoA));
    assert_eq!(determine_trade_direction(&eth_pool, &sol, &usdc), None);
    assert_eq!(determine_trade_direction(&sol_pool, &eth, &usdc), None);
    assert_eq!(determine_trade_direction(&eth_pool, &eth, &eth), None);
    assert_eq!(determine_trade_direction(&numbered(1), &eth, &usdc), None);
}

#[test]
fn pool_follows_the_pair() {
    let (eth, usdc, sol) = (key(ETH_PUBKEY), key(USDC_PUBKEY), key(SOL_PUBKEY));
    assert_eq!(determine_pool_pubkey(&eth, &usdc), Some(key(ETH_USDC_AMM_PUBKEY)));
    assert_eq!(determine_pool_pubkey(&usdc, &eth), Some(key(ETH_USDC_AMM_PUBKEY)));
    assert_eq!(determine_pool_pubkey(&sol, &usdc), Some(key(SOL_USDC_AMM_PUBKEY)));
    assert_eq!(determine_pool_pubkey(&usdc, &sol), Some(key(SOL_USDC_AMM_PUBKEY)));
    assert_eq!(determine_pool_pubkey(&eth, &sol), None);
    assert_eq!(determine_pool_pubkey(&usdc, &usdc), None);
}

#[test]
fn out_value_is_read_from_the_log() {
    assert_eq!(extract_out_value(r#"Program log: {"in":100,"out":12345,"fee":2}"#), Some(12345));
    assert_eq!(extract_out_value(r#""out": 77 ,"#), Some(77));
    assert_eq!(extract_out_value(r#""out":+5,"#), Some(5));
    assert_eq!(extract_out_value(r#""out":007,x"#), Some(7));
    assert_eq!(extract_out_value("\"out\":\t\u{a0}9\u{3000}\n,"), Some(9));
    assert_eq!(extract_out_value(r#""out":18446744073709551615,"#), Some(u64::MAX));
    assert_eq!(extract_out_value(r#"é"out"=3,"out":4,"#), Some(3));
}

#[test]
fn out_value_is_missing_from_other_lines() {
    assert_eq!(extract_out_value(""), None);
    assert_eq!(extract_out_value("Program log: Instruction: Swap"), None);
    assert_eq!(extract_out_value(r#""out""#), None);
    assert_eq!(extract_out_value(r#""out":"#), None);
    assert_eq!(extract_out_value(r#""out":12"#), None);
    assert_eq!(extract_out_value(r#""out":,"#), None);
    assert_eq!(extract_out_value(r#""out": ,"#), None);
    assert_eq!(extract_out_value(r#""out":-1,"#), None);
    assert_eq!(extract_out_value(r#""out":+,"#), None);
    assert_eq!(extract_out_value(r#""out":1 2,"#), None);
    assert_eq!(extract_out_value(r#""out":12a,"#), None);
    assert_eq!(extract_out_value(r#""out":"12","#), None);
    assert_eq!(extract_out_value(r#""out":18446744073709551616,"#), None);
    assert_eq!(extract_out_value(r#""out":99999999999999999999999,"#), None);
    assert_eq!(extract_out_value("\"out\"é1,"), None);
    assert_eq!(extract_out_value(r#""out" :5,"#), None);
}

#[test]
fn find_gives_the_first_place() {
    let text = chars_of("abcabc");
    assert_eq!(text, vec!['a', 'b', 'c', 'a', 'b', 'c']);
    assert_eq!(find(&text, &chars_of("bc"), 0), Some(1));
    assert_eq!(find(&text, &chars_of("bc"), 2), Some(4));
    assert_eq!(find(&text, &chars_of("bc"), 5), None);
    assert_eq!(find(&text, &chars_of("cb"), 0), None);
    assert_eq!(find(&text, &chars_of("abcabcd"), 0), None);
    assert_eq!(find(&text, &chars_of("c"), 9), None);
}

#[test]
fn simulated_amount_is_the_first_value_or_zero() {
    let logs = vec![
        String::from("Program log: start"),
        String::from(r#"Program log: {"out":41,"x":1}"#),
        String::from(r#"Program log: {"out":42,"x":1}"#),
    ];
    assert_eq!(simulated_amount_out(&logs), 41);
    assert_eq!(simulated_amount_out(&logs[..1].to_vec()), 0);
    assert_eq!(simulated_amount_out(&Vec::new()), 0);
}

#[test]
fn quoted_minimum_takes_two_hundredths_off() {
    assert_eq!(quoted_minimum(1_000), Some(980));
    assert_eq!(quoted_minimum(49), Some(49));
    assert_eq!(quoted_minimum(50), Some(49));
    assert_eq!(quoted_minimum(0), Some(0));
    assert_eq!(quoted_minimum(u64::MAX / 2), Some(u64::MAX / 2 - (u64::MAX - 1) / 100));
    assert_eq!(quoted_minimum(u64::MAX / 2 + 1), None);
}

#[test]
fn reserves_are_the_amounts_of_the_two_accounts() {
    let a = token_account_bytes(1_000);
    let b = token_account_bytes(2_500);
    assert_eq!(swap_reserves(&a, &b), Ok((1_000, 2_500)));
    assert_eq!(swap_reserves(&a[..100], &b), Err(StateError::InvalidAccountData));
    assert_eq!(swap_reserves(&a, &[]), Err(StateError::InvalidAccountData));
}

#[test]
fn planned_swap_names_pool_and_wrapping() {
    let (eth, usdc, sol) = (key(ETH_PUBKEY), key(USDC_PUBKEY), key(SOL_PUBKEY));
    let info = plan_swap(&numbered(1), &eth, &usdc, 500).unwrap();
    assert_eq!(info.wallet_pubkey, numbered(1));
    assert_eq!((info.token_a, info.token_b), (eth, usdc));
    assert_eq!(info.amm_pool_pubkey, key(ETH_USDC_AMM_PUBKEY));
    assert_eq!((info.amount_in, info.amount_out, info.should_transfer_source), (500, None, true));
    let info = plan_swap(&numbered(1), &usdc, &sol, 7).unwrap();
    assert_eq!(info.amm_pool_pubkey, key(SOL_USDC_AMM_PUBKEY));
    assert!(!info.should_transfer_source);
    let sent = confirm_swap(&info, 99);
    assert_eq!(sent.amount_out, Some(99));
    assert_eq!((sent.token_a, sent.token_b, sent.amount_in), (usdc, sol, 7));
    assert_eq!(plan_swap(&numbered(1), &eth, &sol, 1).unwrap_err(), SwapError::UnknownPool);
}

fn pool_for(token_a_mint: Pubkey, token_b_mint: Pubkey) -> Amm {
    let mut amm = Amm::deserialize(&amm_bytes()).unwrap();
    amm.token_a_mint = token_a_mint;
    amm.token_b_mint = token_b_mint;
    amm
}

#[test]
fn swap_of_ether_wraps_first() {
    let wallet = numbered(40);
    let (eth, usdc) = (key(ETH_PUBKEY), key(USDC_PUBKEY));
    let token_program = key(TOKEN_2022_PROGRAM_ID);
    let info = plan_swap(&wallet, &eth, &usdc, 1_000).unwrap();
    let amm = pool_for(eth, usdc);
    let ixs = prepare_swap(&info, &amm, 55).unwrap();
    let source = derive_ata(&wallet, &eth, &token_program).unwrap().0;
    let destination = derive_ata(&wallet, &usdc, &token_program).unwrap().0;
    let authority = derive_program_authority(&info.amm_pool_pubkey).unwrap().0;
    assert_eq!(ixs.len(), 5);
    assert_eq!(ixs[0].program_id, key(ASSOCIATED_TOKEN_PROGRAM_ID));
    assert_eq!(ixs[0].accounts[1].pubkey, source);
    assert_eq!(ixs[0].accounts[3].pubkey, eth);
    assert_eq!(ixs[0].data, vec![1]);
    // The transfer of the system program: number 2 and the lamports.
    assert_eq!(
        ixs[1],
        Instruction {
            program_id: key(SYSTEM_PROGRAM_ID),
            accounts: vec![writable(wallet, true), writable(source, false)],
            data: vec![2, 0, 0, 0, 0xe8, 3, 0, 0, 0, 0, 0, 0],
        }
    );
    assert_eq!(ixs[2], sync_native(&token_program, &source));
    assert_eq!(ixs[3].accounts[1].pubkey, destination);
    assert_eq!(ixs[3].accounts[3].pubkey, usdc);
    let swap_ix = &ixs[4];
    assert_eq!(swap_ix.program_id, key(LIFINITY_PROGRAM_ID));
    assert_eq!(swap_ix.accounts.len(), 15);
    assert_eq!(swap_ix.accounts[0], readonly(authority, false));
    assert_eq!(swap_ix.accounts[1], writable(info.amm_pool_pubkey, false));
    assert_eq!(swap_ix.accounts[2], readonly(wallet, true));
    assert_eq!(swap_ix.accounts[3], writable(source, false));
    assert_eq!(swap_ix.accounts[4], writable(destination, false));
    assert_eq!(swap_ix.accounts[5], writable(amm.token_a_account, false));
    assert_eq!(swap_ix.accounts[6], writable(amm.token_b_account, false));
    assert_eq!(swap_ix.accounts[7], writable(eth, false));
    assert_eq!(swap_ix.accounts[8], writable(usdc, false));
    assert_eq!(swap_ix.accounts[9], writable(amm.pool_mint, false));
    assert_eq!(swap_ix.accounts[10], writable(amm.fee_account, false));
    assert_eq!(swap_ix.accounts[11], readonly(token_program, false));
    assert_eq!(swap_ix.accounts[12], readonly(amm.oracle_main_account, false));
    assert_eq!(swap_ix.accounts[13], readonly(amm.oracle_sub_account, false));
    assert_eq!(swap_ix.accounts[14], readonly(amm.oracle_pc_account, false));
    assert_eq!(swap_ix.data, LifinitySwapInput::new(1_000, 55).get_data());
}

#[test]
fn swap_for_ether_unwraps_last() {
    let wallet = numbered(41);
    let (eth, usdc) = (key(ETH_PUBKEY), key(USDC_PUBKEY));
    let token_program = key(TOKEN_2022_PROGRAM_ID);
    let info = confirm_swap(&plan_swap(&wallet, &usdc, &eth, 9).unwrap(), 3);
    let amm = pool_for(eth, usdc);
    let ixs = prepare_swap(&info, &amm, 2).unwrap();
    let destination = derive_ata(&wallet, &eth, &token_program).unwrap().0;
    assert_eq!(ixs.len(), 5);
    // The token paid in is the pool's second: the sides are switched.
    assert_eq!(ixs[2].accounts[5], writable(amm.token_b_account, false));
    assert_eq!(ixs[2].accounts[6], writable(amm.token_a_account, false));
    assert_eq!(ixs[2].accounts[7], writable(usdc, false));
    assert_eq!(ixs[2].accounts[8], writable(eth, false));
    assert_eq!(ixs[3..], unwrap_eth(&wallet, &destination)[..]);
}

#[test]
fn swap_without_ether_has_three_instructions() {
    let wallet = numbered(42);
    let (sol, usdc) = (key(SOL_PUBKEY), key(USDC_PUBKEY));
    let info = plan_swap(&wallet, &sol, &usdc, 9).unwrap();
    let ixs = prepare_swap(&info, &pool_for(sol, usdc), 2).unwrap();
    assert_eq!(ixs.len(), 3);
    assert_eq!(ixs[2].program_id, key(LIFINITY_PROGRAM_ID));
}

#[test]
fn swap_is_refused_for_a_wrong_pool() {
    let wallet = numbered(43);
    let (eth, sol, usdc) = (key(ETH_PUBKEY), key(SOL_PUBKEY), key(USDC_PUBKEY));
    let info = plan_swap(&wallet, &eth, &usdc, 9).unwrap();
    assert_eq!(prepare_swap(&info, &pool_for(sol, usdc), 1).unwrap_err(), SwapError::InvalidAmmPool);
    let stray = SwapInfo::new(&wallet, &eth, &usdc, &numbered(9), 9, None, true);
    assert_eq!(
        prepare_swap(&stray, &pool_for(eth, usdc), 1).unwrap_err(),
        SwapError::UnknownTradeDirection
    );
}

#[test]
fn swap_args_assemble_into_an_instruction() {
    let args = LifinitySwapArgs {
        authority: numbered(1),
        amm: numbered(2),
        user_transfer_authority: numbered(3),
        source_info: numbered(4),
        destination_info: numbered(5),
        swap_source: numbered(6),
        swap_destination: numbered(7),
        source_mint: numbered(8),
        destination_mint: numbered(9),
        pool_mint: numbered(10),
        fee_account: numbered(11),
        token_program: numbered(12),
        oracle_main_account: numbered(13),
        oracle_sub_account: numbered(14),
        oracle_pc_account: numbered(15),
        amount_in: 10,
        minimum_amount_out: 9,
    };
    assert_eq!(args.program_id(), key(LIFINITY_PROGRAM_ID));
    let accounts = args.accounts();
    assert_eq!(accounts.len(), 15);
    let signers: Vec<usize> =
        accounts.iter().enumerate().filter(|(_, m)| m.is_signer).map(|(i, _)| i).collect();
    assert_eq!(signers, vec![2]);
    let readers: Vec<usize> =
        accounts.iter().enumerate().filter(|(_, m)| !m.is_writable).map(|(i, _)| i).collect();
    assert_eq!(readers, vec![0, 2, 11, 12, 13, 14]);
    for (i, meta) in accounts.iter().enumerate() {
        assert_eq!(meta.pubkey, numbered(i as u8 + 1));
    }
    assert_eq!(args.data(), LifinitySwapInput::new(10, 9));
    let ix = assemble_swap_ix(args);
    assert_eq!(ix.program_id, key(LIFINITY_PROGRAM_ID));
    assert_eq!(ix.accounts, accounts);
    assert_eq!(ix.data, LifinitySwapInput::new(10, 9).get_data());
}

#[test]
fn collection_body_is_built_field_by_field() {
    let body = CollectionsBody::default();
    assert_eq!(body.get_account(), "");
    assert!(!body.is_soulbound() && !body.is_transferable() && !body.is_burnable());
    let body = body
        .account("wallet")
        .name("name")
        .image("https://image")
        .description("text")
        .external_url("https://link")
        .soulbound(true)
        .transferable(false)
        .burnable(true);
    assert_eq!(body.get_account(), "wallet");
    assert_eq!(body.get_name(), "name");
    assert_eq!(body.get_image(), "https://image");
    assert_eq!(body.get_description(), "text");
    assert_eq!(body.get_external_url(), "https://link");
    assert!(body.is_soulbound());
    assert!(!body.is_transferable());
    assert!(body.is_burnable());
    let body = body.name("other").burnable(false);
    assert_eq!(body.get_name(), "other");
    assert_eq!(body.get_account(), "wallet");
    assert!(!body.is_burnable() && body.is_soulbound());
}

#[test]
fn made_up_links_have_the_shape_of_links() {
    assert_eq!(url_from("example", "org"), "https://example.org");
    assert_eq!(url_from("", ""), "https://.");
    for _ in 0..20 {
        let url = generate_random_url();
        let rest = url.strip_prefix("https://").unwrap();
        let (domain, tld) = rest.rsplit_once('.').unwrap();
        assert!(!domain.is_empty() && !tld.is_empty());
    }
}

#[test]
fn made_up_collection_belongs_to_the_account() {
    let mut flags = [false; 6];
    for _ in 0..200 {
        let body = random_collection_body("wallet-address");
        assert_eq!(body.get_account(), "wallet-address");
        assert!(!body.get_name().is_empty());
        assert!(body.get_image().starts_with("https://"));
        assert!(body.get_external_url().starts_with("https://"));
        assert!(body.get_description().ends_with('.'));
        flags[body.is_soulbound() as usize] = true;
        flags[2 + body.is_transferable() as usize] = true;
        flags[4 + body.is_burnable() as usize] = true;
    }
    assert_eq!(flags, [true; 6]);
}

#[test]
fn evm_ether_has_eighteen_decimals() {
    let eth = EvmToken::eth();
    assert!(eth.contract_address.is_none());
    assert_eq!((eth.decimals, eth.symbol, eth.is_erc20), (18, "ETH", false));
    assert_eq!(eth.label(), "$ETH");
}
