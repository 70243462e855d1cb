use eclipse_warmup::config::{Bridge, Config, General, Lifinity, Underdog};
use eclipse_warmup::db::entities::{
    AccountGoalModel, AccountModel, BridgeStateModel, Database, StoreError,
};
use eclipse_warmup::db::erase::erase_all_tables;
use eclipse_warmup::db::service::account::mutation::eclipse_address;
use eclipse_warmup::db::service::account_goal::mutation::quota_from;
use eclipse_warmup::db::service::prelude::{
    AccountGoalMutation, AccountGoalQuery, AccountMutation, AccountQuery,
    BridgeModuleStateMutation, BridgeModuleStateQuery,
};
use solana_sdk::signature::Keypair;
use solana_sdk::signer::Signer;

fn store_config(swaps: [u32; 2], creates: [u32; 2]) -> Config {
    Config {
        general: General {
            eclipse_rpc_url: String::from("http://eclipse"),
            mainnet_rpc_url: String::from("http://mainnet"),
            thread_count: 2,
        },
        bridge: Bridge { balance_percentage_range: [10, 20], wallet_sleep_delay_range: [1, 2] },
        lifinity: Lifinity {
            swaps_count_range: swaps,
            balance_percentage_range: [10, 20],
            wallet_sleep_delay_range: [1, 2],
        },
        underdog: Underdog { create_count_range: creates },
    }
}

fn store_with_accounts(count: usize) -> Database {
    let mut db = Database::new();
    for i in 0..count {
        let key = Keypair::new().to_base58_string();
        let id = AccountMutation::create_account(
            &format!("evm-key-{i}"),
            &format!("0xaddress{i}"),
            &key,
            None,
            &mut db,
        )
        .unwrap();
        assert_eq!(id, i as i32 + 1);
    }
    db
}

fn plain_account(id: i32, tag: &str) -> AccountModel {
    AccountModel {
        id,
        is_active: true,
        evm_private_key: format!("evm-{tag}"),
        evm_address: format!("0x{tag}"),
        eclipse_private_key: format!("ecl-{tag}"),
        eclipse_address: format!("addr-{tag}"),
        proxy: None,
        swap_count: 0,
        create_count: 0,
    }
}

#[test]
fn new_store_is_empty() {
    let db = Database::new();
    assert!(db.account_records().is_empty());
    assert!(db.goal_records().is_empty());
    assert!(db.bridge_state_records().is_empty());
    assert_eq!(AccountQuery::get_active_accounts(&db).unwrap_err(), StoreError::RecordNotFound);
}

#[test]
fn eclipse_address_is_the_public_key_of_the_pair() {
    let pair = Keypair::new();
    let address = eclipse_address(&pair.to_base58_string()).unwrap();
    assert_eq!(address, pair.pubkey().to_string());
    assert_ne!(address, pair.to_base58_string());
}

#[test]
fn eclipse_address_refuses_text_that_is_not_base58() {
    assert_eq!(eclipse_address("not base58 0OIl"), Err(StoreError::InvalidBase58));
}

#[test]
fn eclipse_address_refuses_bytes_that_are_no_key_pair() {
    assert_eq!(eclipse_address("3mJr7AoUXx2Wqd"), Err(StoreError::InvalidKeypair));
    assert_eq!(eclipse_address(""), Err(StoreError::InvalidKeypair));
}

#[test]
fn created_account_starts_active_with_zero_counters() {
    let pair = Keypair::new();
    let mut db = Database::new();
    let id = AccountMutation::create_account(
        "evm-key",
        "0xabc",
        &pair.to_base58_string(),
        Some(String::from("http://proxy:1")),
        &mut db,
    )
    .unwrap();
    assert_eq!(id, 1);
    let account = AccountQuery::find_account_by_id(1, &db).unwrap();
    assert_eq!(account.id, 1);
    assert!(account.is_active);
    assert_eq!(account.evm_private_key, "evm-key");
    assert_eq!(account.evm_address, "0xabc");
    assert_eq!(account.eclipse_private_key, pair.to_base58_string());
    assert_eq!(account.eclipse_address, pair.pubkey().to_string());
    assert_eq!(account.proxy, Some(String::from("http://proxy:1")));
    assert_eq!(account.swap_count, 0);
    assert_eq!(account.create_count, 0);
}

#[test]
fn duplicate_keys_are_rejected_and_leave_the_store_unchanged() {
    let first = Keypair::new().to_base58_string();
    let second = Keypair::new().to_base58_string();
    let mut db = Database::new();
    AccountMutation::create_account("evm-1", "0x1", &first, None, &mut db).unwrap();
    for (evm_key, evm_address, eclipse_key) in [
        ("evm-1", "0x2", second.as_str()),
        ("evm-2", "0x1", second.as_str()),
        ("evm-2", "0x2", first.as_str()),
    ] {
        let res = AccountMutation::create_account(evm_key, evm_address, eclipse_key, None, &mut db);
        assert_eq!(res, Err(StoreError::UniqueViolation));
        assert_eq!(db.account_records().len(), 1);
    }
    assert_eq!(AccountMutation::create_account("evm-2", "0x2", &second, None, &mut db), Ok(2));
}

#[test]
fn invalid_eclipse_key_is_rejected_before_uniqueness() {
    let mut db = store_with_accounts(1);
    let res = AccountMutation::create_account("evm-key-0", "0xaddress0", "0OIl", None, &mut db);
    assert_eq!(res, Err(StoreError::InvalidBase58));
    let res = AccountMutation::create_account("evm-key-0", "0xaddress0", "2g", None, &mut db);
    assert_eq!(res, Err(StoreError::InvalidKeypair));
    assert_eq!(db.account_records().len(), 1);
}

#[test]
fn find_account_reports_missing_record() {
    let db = store_with_accounts(2);
    assert_eq!(AccountQuery::find_account_by_id(2, &db).unwrap().id, 2);
    assert_eq!(
        AccountQuery::find_account_by_id(3, &db).unwrap_err(),
        StoreError::RecordNotFound
    );
}

#[test]
fn counters_grow_by_one() {
    let mut db = store_with_accounts(2);
    let after = AccountMutation::increase_swap_count(2, &mut db).unwrap();
    assert_eq!((after.id, after.swap_count, after.create_count), (2, 1, 0));
    let after = AccountMutation::increase_create_count(2, &mut db).unwrap();
    assert_eq!((after.swap_count, after.create_count), (1, 1));
    let after = AccountMutation::increase_swap_count(2, &mut db).unwrap();
    assert_eq!(after.swap_count, 2);
    let stored = AccountQuery::find_account_by_id(2, &db).unwrap();
    assert_eq!((stored.swap_count, stored.create_count), (2, 1));
    let other = AccountQuery::find_account_by_id(1, &db).unwrap();
    assert_eq!((other.swap_count, other.create_count), (0, 0));
}

#[test]
fn mutations_of_missing_account_fail() {
    let mut db = store_with_accounts(1);
    assert_eq!(
        AccountMutation::increase_swap_count(9, &mut db).unwrap_err(),
        StoreError::RecordNotFound
    );
    assert_eq!(
        AccountMutation::increase_create_count(9, &mut db).unwrap_err(),
        StoreError::RecordNotFound
    );
    assert_eq!(
        AccountMutation::mark_as_inactive(9, &mut db).unwrap_err(),
        StoreError::RecordNotFound
    );
}

#[test]
fn counter_at_its_limit_overflows() {
    let mut full = plain_account(1, "a");
    full.swap_count = i32::MAX;
    full.create_count = i32::MAX;
    let mut db = Database::from_records(vec![full], vec![], vec![]).unwrap();
    assert_eq!(
        AccountMutation::increase_swap_count(1, &mut db).unwrap_err(),
        StoreError::Overflow
    );
    assert_eq!(
        AccountMutation::increase_create_count(1, &mut db).unwrap_err(),
        StoreError::Overflow
    );
    assert_eq!(db.account_records()[0].swap_count, i32::MAX);
}

#[test]
fn id_sequence_at_its_limit_overflows() {
    let mut db =
        Database::from_records(vec![plain_account(i32::MAX, "a")], vec![], vec![]).unwrap();
    let key = Keypair::new().to_base58_string();
    assert_eq!(
        AccountMutation::create_account("evm-new", "0xnew", &key, None, &mut db),
        Err(StoreError::Overflow)
    );
}

#[test]
fn inactive_account_leaves_the_active_set_for_good() {
    let mut db = store_with_accounts(3);
    let retired = AccountMutation::mark_as_inactive(2, &mut db).unwrap();
    assert!(!retired.is_active);
    let active: Vec<i32> =
        AccountQuery::get_active_accounts(&db).unwrap().iter().map(|a| a.id).collect();
    assert_eq!(active, vec![1, 3]);
    AccountMutation::increase_swap_count(2, &mut db).unwrap();
    AccountMutation::increase_create_count(2, &mut db).unwrap();
    AccountMutation::mark_as_inactive(2, &mut db).unwrap();
    assert!(!AccountQuery::find_account_by_id(2, &db).unwrap().is_active);
    assert_eq!(AccountQuery::get_active_accounts_ids_by_ids(&[2, 3], &db), Ok(vec![3]));
}

#[test]
fn active_ids_are_filtered_by_candidates_in_table_order() {
    let mut db = store_with_accounts(5);
    AccountMutation::mark_as_inactive(4, &mut db).unwrap();
    assert_eq!(AccountQuery::get_active_accounts_ids_by_ids(&[5, 4, 2, 9], &db), Ok(vec![2, 5]));
    assert_eq!(
        AccountQuery::get_active_accounts_ids_by_ids(&[4, 9], &db),
        Err(StoreError::RecordNotFound)
    );
    assert_eq!(
        AccountQuery::get_active_accounts_ids_by_ids(&[], &db),
        Err(StoreError::RecordNotFound)
    );
}

#[test]
fn quota_keeps_small_counts_and_wraps_large_ones() {
    assert_eq!(quota_from(0), 0);
    assert_eq!(quota_from(7), 7);
    assert_eq!(quota_from(i32::MAX as u32), i32::MAX);
    assert_eq!(quota_from(i32::MAX as u32 + 1), i32::MIN);
    assert_eq!(quota_from(u32::MAX), -1);
}

#[test]
fn goal_is_drawn_from_the_configured_ranges() {
    let mut db = store_with_accounts(1);
    let config = store_config([5, 3], [2, 2]);
    assert_eq!(AccountGoalMutation::create_account_goal(&config, 1, &mut db), Ok(1));
    let goal = AccountGoalQuery::get_account_goal_by_id(1, &db).unwrap();
    assert_eq!(goal.id, 1);
    assert!((3..=5).contains(&goal.swap_count));
    assert_eq!(goal.create_count, 2);
}

#[test]
fn goal_needs_an_account_and_is_unique() {
    let mut db = store_with_accounts(1);
    assert_eq!(
        AccountGoalMutation::insert_account_goal(2, 1, 1, &mut db),
        Err(StoreError::ForeignKeyViolation)
    );
    assert_eq!(AccountGoalMutation::insert_account_goal(1, 4, 6, &mut db), Ok(1));
    assert_eq!(
        AccountGoalMutation::insert_account_goal(1, 1, 1, &mut db),
        Err(StoreError::UniqueViolation)
    );
    assert_eq!(
        AccountGoalQuery::get_account_goal_by_id(1, &db),
        Ok(AccountGoalModel { id: 1, swap_count: 4, create_count: 6 })
    );
    assert_eq!(
        AccountGoalQuery::get_account_goal_by_id(2, &db),
        Err(StoreError::RecordNotFound)
    );
}

#[test]
fn bridge_state_starts_unbridged_and_is_unique() {
    let mut db = store_with_accounts(2);
    assert_eq!(BridgeModuleStateMutation::create_account_bridge_state(1, &mut db), Ok(1));
    assert_eq!(
        BridgeModuleStateMutation::create_account_bridge_state(1, &mut db),
        Err(StoreError::UniqueViolation)
    );
    assert_eq!(
        BridgeModuleStateMutation::create_account_bridge_state(3, &mut db),
        Err(StoreError::ForeignKeyViolation)
    );
    assert_eq!(
        BridgeModuleStateQuery::get_account_bridge_state_by_id(1, &db),
        Some(BridgeStateModel { id: 1, funds_bridged: false })
    );
    assert_eq!(BridgeModuleStateQuery::get_account_bridge_state_by_id(2, &db), None);
}

#[test]
fn bridged_flag_is_set_once_and_stays() {
    let mut db = store_with_accounts(3);
    for id in 1..=3 {
        BridgeModuleStateMutation::create_account_bridge_state(id, &mut db).unwrap();
    }
    assert_eq!(
        BridgeModuleStateMutation::set_funds_bridged(2, &mut db),
        Ok(BridgeStateModel { id: 2, funds_bridged: true })
    );
    assert_eq!(
        BridgeModuleStateMutation::set_funds_bridged(2, &mut db),
        Ok(BridgeStateModel { id: 2, funds_bridged: true })
    );
    let open: Vec<i32> = BridgeModuleStateQuery::get_accounts_with_unbridged_state(&db)
        .unwrap()
        .iter()
        .map(|s| s.id)
        .collect();
    assert_eq!(open, vec![1, 3]);
    assert_eq!(
        BridgeModuleStateQuery::get_unbridged_state_ids_by_ids(&[3, 2], &db),
        Ok(vec![3])
    );
    assert_eq!(
        BridgeModuleStateQuery::get_unbridged_state_ids_by_ids(&[2], &db),
        Err(StoreError::RecordNotFound)
    );
}

#[test]
fn set_funds_bridged_needs_a_state() {
    let mut db = store_with_accounts(1);
    assert_eq!(
        BridgeModuleStateMutation::set_funds_bridged(1, &mut db),
        Err(StoreError::RecordNotFound)
    );
    assert_eq!(
        BridgeModuleStateQuery::get_accounts_with_unbridged_state(&db).unwrap_err(),
        StoreError::RecordNotFound
    );
}

#[test]
fn erase_removes_everything_and_restarts_ids() {
    let mut db = store_with_accounts(2);
    AccountGoalMutation::insert_account_goal(1, 1, 1, &mut db).unwrap();
    BridgeModuleStateMutation::create_account_bridge_state(1, &mut db).unwrap();
    erase_all_tables(&mut db);
    assert!(db.account_records().is_empty());
    assert!(db.goal_records().is_empty());
    assert!(db.bridge_state_records().is_empty());
    let key = Keypair::new().to_base58_string();
    assert_eq!(AccountMutation::create_account("evm", "0x", &key, None, &mut db), Ok(1));
}

#[test]
fn from_records_accepts_valid_tables() {
    let db = Database::from_records(
        vec![plain_account(2, "a"), plain_account(5, "b")],
        vec![AccountGoalModel { id: 5, swap_count: 1, create_count: 2 }],
        vec![BridgeStateModel { id: 2, funds_bridged: true }],
    )
    .unwrap();
    assert_eq!(db.account_records().len(), 2);
    assert_eq!(db.goal_records()[0].id, 5);
    assert!(db.bridge_state_records()[0].funds_bridged);
}

#[test]
fn from_records_refuses_broken_constraints() {
    assert!(Database::from_records(vec![plain_account(0, "a")], vec![], vec![]).is_none());
    assert!(Database::from_records(
        vec![plain_account(2, "a"), plain_account(1, "b")],
        vec![],
        vec![]
    )
    .is_none());
    assert!(Database::from_records(
        vec![plain_account(1, "a"), plain_account(2, "a")],
        vec![],
        vec![]
    )
    .is_none());
    let mut shared = plain_account(2, "b");
    shared.eclipse_address = String::from("addr-a");
    assert!(Database::from_records(vec![plain_account(1, "a"), shared], vec![], vec![]).is_none());
    let goal = AccountGoalModel { id: 1, swap_count: 0, create_count: 0 };
    assert!(Database::from_records(vec![plain_account(1, "a")], vec![goal, goal], vec![]).is_none());
    assert!(Database::from_records(
        vec![plain_account(1, "a")],
        vec![AccountGoalModel { id: 2, swap_count: 0, create_count: 0 }],
        vec![]
    )
    .is_none());
    let state = BridgeStateModel { id: 1, funds_bridged: false };
    assert!(
        Database::from_records(vec![plain_account(1, "a")], vec![], vec![state, state]).is_none()
    );
    assert!(Database::from_records(
        vec![plain_account(1, "a")],
        vec![],
        vec![BridgeStateModel { id: 7, funds_bridged: false }]
    )
    .is_none());
}
