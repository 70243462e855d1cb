use eclipse_warmup::config::{Bridge, Config, General, Lifinity, Underdog};
use eclipse_warmup::db::entities::{BridgeStateModel, Database, StoreError};
use eclipse_warmup::db::generate::{generate_db, ingest_entry, EvmKey, Ingested};
use eclipse_warmup::db::service::prelude::{AccountGoalQuery, AccountQuery};
use eclipse_warmup::utils::misc::{progress_bar_width, random_in_range};
use solana_sdk::signature::Keypair;
use solana_sdk::signer::Signer;

fn ingest_config() -> Config {
    Config {
        general: General {
            eclipse_rpc_url: String::from("http://eclipse"),
            mainnet_rpc_url: String::from("http://mainnet"),
            thread_count: 2,
        },
        bridge: Bridge { balance_percentage_range: [10, 20], wallet_sleep_delay_range: [1, 2] },
        lifinity: Lifinity {
            swaps_count_range: [2, 4],
            balance_percentage_range: [10, 20],
            wallet_sleep_delay_range: [1, 2],
        },
        underdog: Underdog { create_count_range: [7, 5] },
    }
}

fn evm_key(tag: &str) -> EvmKey {
    EvmKey { private_key: format!("evm-{tag}"), address: Some(format!("0x{tag}")) }
}

#[test]
fn entry_becomes_account_goal_and_bridge_state() {
    let pair = Keypair::new();
    let mut db = Database::new();
    let outcome = ingest_entry(
        &ingest_config(),
        &evm_key("a"),
        &pair.to_base58_string(),
        Some(String::from("proxy-a")),
        &mut db,
    );
    assert_eq!(outcome, Ingested::Created(1));
    let account = AccountQuery::find_account_by_id(1, &db).unwrap();
    assert_eq!(account.eclipse_address, pair.pubkey().to_string());
    assert_eq!(account.proxy, Some(String::from("proxy-a")));
    let goal = AccountGoalQuery::get_account_goal_by_id(1, &db).unwrap();
    assert!((2..=4).contains(&goal.swap_count));
    assert!((5..=7).contains(&goal.create_count));
    assert_eq!(
        db.bridge_state_records(),
        &vec![BridgeStateModel { id: 1, funds_bridged: false }]
    );
}

#[test]
fn entry_that_cannot_be_created_leaves_the_store_as_it_was() {
    let key = Keypair::new().to_base58_string();
    let mut db = Database::new();
    let config = ingest_config();
    assert_eq!(ingest_entry(&config, &evm_key("a"), &key, None, &mut db), Ingested::Created(1));
    assert_eq!(
        ingest_entry(&config, &evm_key("a"), &Keypair::new().to_base58_string(), None, &mut db),
        Ingested::Skipped(StoreError::UniqueViolation)
    );
    assert_eq!(
        ingest_entry(&config, &evm_key("b"), "not a key", None, &mut db),
        Ingested::Skipped(StoreError::InvalidBase58)
    );
    let no_address = EvmKey { private_key: String::from("zz"), address: None };
    assert_eq!(
        ingest_entry(&config, &no_address, &Keypair::new().to_base58_string(), None, &mut db),
        Ingested::InvalidEvmKey
    );
    assert_eq!(db.account_records().len(), 1);
    assert_eq!(db.goal_records().len(), 1);
    assert_eq!(db.bridge_state_records().len(), 1);
}

#[test]
fn key_lists_are_taken_in_order_and_duplicates_skipped() {
    let keys: Vec<String> = (0..4).map(|_| Keypair::new().to_base58_string()).collect();
    let evm_keys = vec![evm_key("a"), evm_key("b"), evm_key("a"), evm_key("c")];
    let eclipse_keys = vec![keys[0].clone(), keys[1].clone(), keys[2].clone(), keys[1].clone()];
    let proxies = vec![String::from("proxy-a"), String::from("proxy-b")];
    let mut db = Database::new();
    let report = generate_db(&ingest_config(), &evm_keys, &eclipse_keys, &proxies, &mut db);
    assert_eq!(
        report.outcomes,
        vec![
            Ingested::Created(1),
            Ingested::Created(2),
            Ingested::Skipped(StoreError::UniqueViolation),
            Ingested::Skipped(StoreError::UniqueViolation),
        ]
    );
    assert_eq!(report.unused_proxies, 0);
    let accounts = db.account_records();
    assert_eq!(accounts.len(), 2);
    assert_eq!(accounts[0].proxy, Some(String::from("proxy-a")));
    assert_eq!(accounts[1].proxy, Some(String::from("proxy-b")));
    assert_eq!(accounts[1].eclipse_private_key, keys[1]);
    let goal_ids: Vec<i32> = db.goal_records().iter().map(|g| g.id).collect();
    let state_ids: Vec<i32> = db.bridge_state_records().iter().map(|s| s.id).collect();
    assert_eq!(goal_ids, vec![1, 2]);
    assert_eq!(state_ids, vec![1, 2]);

    // Appending: the accounts that are there stay, new ones follow.
    let more_evm = vec![evm_key("b"), evm_key("d")];
    let more_eclipse = vec![keys[3].clone(), keys[3].clone()];
    let proxies = vec![String::from("proxy-c"), String::from("proxy-d"), String::from("proxy-e")];
    let report = generate_db(&ingest_config(), &more_evm, &more_eclipse, &proxies, &mut db);
    assert_eq!(
        report.outcomes,
        vec![Ingested::Skipped(StoreError::UniqueViolation), Ingested::Created(3)]
    );
    assert_eq!(report.unused_proxies, 1);
    assert_eq!(db.account_records().len(), 3);
    // The proxy of the skipped entry is used up.
    assert_eq!(db.account_records()[2].proxy, Some(String::from("proxy-d")));
    assert_eq!(db.goal_records().len(), 3);
    assert_eq!(db.bridge_state_records().len(), 3);
}

#[test]
fn empty_key_lists_change_nothing() {
    let mut db = Database::new();
    let proxies = vec![String::from("proxy")];
    let report = generate_db(&ingest_config(), &Vec::new(), &Vec::new(), &proxies, &mut db);
    assert!(report.outcomes.is_empty());
    assert_eq!(report.unused_proxies, 1);
    assert!(db.account_records().is_empty());
}

#[test]
fn random_numbers_stay_within_their_bounds() {
    assert_eq!(random_in_range([5, 5]), 5);
    assert_eq!(random_in_range([0, 0]), 0);
    assert_eq!(random_in_range([u32::MAX, u32::MAX]), u32::MAX);
    let mut seen = [false; 4];
    for _ in 0..400 {
        let value = random_in_range([3, 6]);
        assert!((3..=6).contains(&value));
        seen[(value - 3) as usize] = true;
        let value = random_in_range([6, 3]);
        assert!((3..=6).contains(&value));
    }
    assert_eq!(seen, [true; 4]);
}

#[test]
fn progress_bar_is_twenty_columns_narrower_but_not_under_twenty() {
    assert_eq!(progress_bar_width(None), 20);
    assert_eq!(progress_bar_width(Some(80)), 58);
    assert_eq!(progress_bar_width(Some(43)), 21);
    assert_eq!(progress_bar_width(Some(42)), 20);
    assert_eq!(progress_bar_width(Some(22)), 20);
    assert_eq!(progress_bar_width(Some(2)), 20);
}
