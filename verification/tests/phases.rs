use eclipse_warmup::config::{Bridge, Config, General, Lifinity, Underdog};
use eclipse_warmup::db::entities::{
    AccountGoalModel, AccountModel, BridgeStateModel, Database, StoreError,
};
use eclipse_warmup::db::service::prelude::{AccountQuery, BridgeModuleStateQuery};
use eclipse_warmup::modules::bridge::{
    bridge_amount, bridge_funds, bridge_mode, draw_bridge_amount, BridgeOutcome,
};
use eclipse_warmup::modules::menu::{db_menu_action, menu_action, DbMenuAction, MenuAction};
use eclipse_warmup::modules::supervisor::{Supervisor, Verdict};
use eclipse_warmup::modules::warmup::action::{
    actions_for, quota_state, QuotaState, WarmupAction,
};
use eclipse_warmup::modules::warmup::{
    draw_swap_amount, execute_lifinity_swap, execute_random_warmup_action,
    execute_underdog_create_nft, lifinity_swap_amount, record_warmup_outcome, retire_or_run,
    warmup_mode, worker_count, ActionOutcome,
};
use eclipse_warmup::modules::worker::{PassStart, Phase, Worker};

fn phase_config(threads: u64) -> Config {
    Config {
        general: General {
            eclipse_rpc_url: String::from("http://eclipse"),
            mainnet_rpc_url: String::from("http://mainnet"),
            thread_count: threads,
        },
        bridge: Bridge { balance_percentage_range: [50, 50], wallet_sleep_delay_range: [1, 2] },
        lifinity: Lifinity {
            swaps_count_range: [1, 1],
            balance_percentage_range: [30, 40],
            wallet_sleep_delay_range: [1, 2],
        },
        underdog: Underdog { create_count_range: [1, 1] },
    }
}

fn phase_account(id: i32, swaps: i32, creates: i32) -> AccountModel {
    AccountModel {
        id,
        is_active: true,
        evm_private_key: format!("evm-{id}"),
        evm_address: format!("0x{id}"),
        eclipse_private_key: format!("ecl-{id}"),
        eclipse_address: format!("addr-{id}"),
        proxy: None,
        swap_count: swaps,
        create_count: creates,
    }
}

/// A store with accounts 1..=count, each with the same goal and an open bridge state.
fn phase_store(count: i32, swap_target: i32, create_target: i32) -> Database {
    let accounts = (1..=count).map(|id| phase_account(id, 0, 0)).collect();
    let goals = (1..=count)
        .map(|id| AccountGoalModel { id, swap_count: swap_target, create_count: create_target })
        .collect();
    let states = (1..=count).map(|id| BridgeStateModel { id, funds_bridged: false }).collect();
    Database::from_records(accounts, goals, states).unwrap()
}

fn drain(worker: &mut Worker) -> Vec<i32> {
    let mut taken = Vec::new();
    while let Some(id) = worker.next_id() {
        taken.push(id);
    }
    taken
}

fn sorted(mut ids: Vec<i32>) -> Vec<i32> {
    ids.sort();
    ids
}

#[test]
fn quota_state_follows_counters_and_targets() {
    let goal = AccountGoalModel { id: 1, swap_count: 2, create_count: 1 };
    assert_eq!(quota_state(&phase_account(1, 0, 0), &goal), QuotaState::Both);
    assert_eq!(quota_state(&phase_account(1, 2, 0), &goal), QuotaState::HasMintQuota);
    assert_eq!(quota_state(&phase_account(1, 1, 1), &goal), QuotaState::HasSwapQuota);
    assert_eq!(quota_state(&phase_account(1, 2, 1), &goal), QuotaState::Exhausted);
    assert_eq!(quota_state(&phase_account(1, 3, 5), &goal), QuotaState::Exhausted);
}

#[test]
fn actions_follow_quota_state() {
    assert_eq!(actions_for(QuotaState::Exhausted), vec![]);
    assert_eq!(actions_for(QuotaState::HasSwapQuota), vec![WarmupAction::LifinitySwap]);
    assert_eq!(actions_for(QuotaState::HasMintQuota), vec![WarmupAction::UnderdogCreate]);
    assert_eq!(
        actions_for(QuotaState::Both),
        vec![WarmupAction::LifinitySwap, WarmupAction::UnderdogCreate]
    );
}

#[test]
fn selector_picks_the_only_open_action() {
    let account = phase_account(1, 1, 0);
    let only_mint = AccountGoalModel { id: 1, swap_count: 1, create_count: 3 };
    let only_swap = AccountGoalModel { id: 1, swap_count: 4, create_count: 0 };
    let none = AccountGoalModel { id: 1, swap_count: 1, create_count: 0 };
    for _ in 0..50 {
        assert_eq!(account.get_random_warmup_action(only_mint), Some(WarmupAction::UnderdogCreate));
        assert_eq!(account.get_random_warmup_action(only_swap), Some(WarmupAction::LifinitySwap));
        assert_eq!(account.get_random_warmup_action(none), None);
    }
}

#[test]
fn selector_splits_evenly_when_both_quotas_are_open() {
    let account = phase_account(1, 0, 0);
    let goal = AccountGoalModel { id: 1, swap_count: 5, create_count: 5 };
    let trials = 20_000;
    let mut swaps = 0;
    for _ in 0..trials {
        match account.get_random_warmup_action(goal) {
            Some(WarmupAction::LifinitySwap) => swaps += 1,
            Some(WarmupAction::UnderdogCreate) => {}
            None => panic!("an action is due"),
        }
    }
    assert!(swaps > trials * 45 / 100, "swaps: {swaps}");
    assert!(swaps < trials * 55 / 100, "swaps: {swaps}");
}

#[test]
fn account_with_met_swap_quota_and_no_mint_quota_is_retired() {
    // target_swap_count = 2, target_create_count = 0
    let mut db = phase_store(1, 2, 0);
    for done in 0..2 {
        let step = execute_random_warmup_action(1, &mut db).unwrap();
        assert_eq!(step, Some(WarmupAction::LifinitySwap));
        execute_lifinity_swap(1, ActionOutcome::Success, &mut db).unwrap();
        let account = AccountQuery::find_account_by_id(1, &db).unwrap();
        assert_eq!(account.swap_count, done + 1);
        assert!(account.is_active);
    }
    assert_eq!(execute_random_warmup_action(1, &mut db), Ok(None));
    let account = AccountQuery::find_account_by_id(1, &db).unwrap();
    assert!(!account.is_active);
    assert_eq!((account.swap_count, account.create_count), (2, 0));
    assert_eq!(
        AccountQuery::get_active_accounts_ids_by_ids(&[1], &db),
        Err(StoreError::RecordNotFound)
    );
}

#[test]
fn failed_action_changes_nothing() {
    let mut db = phase_store(1, 1, 1);
    execute_lifinity_swap(1, ActionOutcome::Failure, &mut db).unwrap();
    execute_underdog_create_nft(1, ActionOutcome::Failure, &mut db).unwrap();
    let account = AccountQuery::find_account_by_id(1, &db).unwrap();
    assert_eq!((account.swap_count, account.create_count, account.is_active), (0, 0, true));
    execute_underdog_create_nft(1, ActionOutcome::Success, &mut db).unwrap();
    assert_eq!(AccountQuery::find_account_by_id(1, &db).unwrap().create_count, 1);
}

#[test]
fn counters_never_pass_their_targets_over_a_run() {
    let mut db = phase_store(3, 3, 2);
    let mut worker = Worker::new(Phase::Warmup, vec![1, 2, 3]);
    let mut turn = 0;
    while worker.poll(&db) == PassStart::Ready {
        while let Some(id) = worker.next_id() {
            turn += 1;
            let before = AccountQuery::find_account_by_id(id, &db).unwrap();
            let outcome =
                if turn % 3 == 0 { ActionOutcome::Failure } else { ActionOutcome::Success };
            match execute_random_warmup_action(id, &mut db).unwrap() {
                Some(WarmupAction::LifinitySwap) => {
                    execute_lifinity_swap(id, outcome, &mut db).unwrap()
                }
                Some(WarmupAction::UnderdogCreate) => {
                    execute_underdog_create_nft(id, outcome, &mut db).unwrap()
                }
                None => {}
            }
            let after = AccountQuery::find_account_by_id(id, &db).unwrap();
            assert!(after.swap_count >= before.swap_count && after.swap_count <= 3);
            assert!(after.create_count >= before.create_count && after.create_count <= 2);
        }
        assert!(turn < 1000);
    }
    for account in db.account_records() {
        assert_eq!((account.swap_count, account.create_count), (3, 2));
        assert!(!account.is_active);
    }
}

#[test]
fn warmup_cycle_needs_account_and_goal() {
    let mut db = Database::from_records(vec![phase_account(1, 0, 0)], vec![], vec![]).unwrap();
    assert_eq!(execute_random_warmup_action(1, &mut db), Err(StoreError::RecordNotFound));
    assert_eq!(execute_random_warmup_action(2, &mut db), Err(StoreError::RecordNotFound));
    assert_eq!(retire_or_run(2, None, &mut db), Err(StoreError::RecordNotFound));
    assert_eq!(
        retire_or_run(2, Some(WarmupAction::LifinitySwap), &mut db),
        Ok(Some(WarmupAction::LifinitySwap))
    );
    assert_eq!(
        execute_lifinity_swap(2, ActionOutcome::Success, &mut db),
        Err(StoreError::RecordNotFound)
    );
}

#[test]
fn successful_bridge_marks_the_account_once_and_removes_it_from_pending() {
    let mut db = phase_store(8, 1, 1);
    let mut worker = Worker::new(Phase::Bridge, vec![7]);
    assert_eq!(worker.poll(&db), PassStart::Ready);
    assert_eq!(worker.next_id(), Some(7));
    assert_eq!(worker.next_id(), None);
    let before: Vec<BridgeStateModel> = db.bridge_state_records().clone();
    bridge_funds(7, BridgeOutcome::Success, &mut db).unwrap();
    let after = db.bridge_state_records();
    for (old, new) in before.iter().zip(after.iter()) {
        assert_eq!(new.id, old.id);
        assert_eq!(new.funds_bridged, old.id == 7);
    }
    assert_eq!(
        BridgeModuleStateQuery::get_unbridged_state_ids_by_ids(&[7], &db),
        Err(StoreError::RecordNotFound)
    );
    assert_eq!(worker.poll(&db), PassStart::Finished);
    let pending = BridgeModuleStateQuery::get_unbridged_state_ids_by_ids(&[6, 7, 8], &db).unwrap();
    assert_eq!(pending, vec![6, 8]);
}

#[test]
fn failed_bridge_outcomes_keep_the_account_pending() {
    let mut db = phase_store(2, 1, 1);
    for outcome in [
        BridgeOutcome::InsufficientIntentAmount,
        BridgeOutcome::TransactionFailed,
        BridgeOutcome::TransportError,
    ] {
        assert_eq!(bridge_funds(2, outcome, &mut db), Ok(()));
        assert_eq!(
            BridgeModuleStateQuery::get_unbridged_state_ids_by_ids(&[1, 2], &db),
            Ok(vec![1, 2])
        );
    }
    assert_eq!(bridge_funds(5, BridgeOutcome::Success, &mut db), Err(StoreError::RecordNotFound));
    assert_eq!(bridge_funds(5, BridgeOutcome::TransportError, &mut db), Ok(()));
}

#[test]
fn relaunched_worker_takes_only_what_is_left() {
    let mut db = phase_store(5, 1, 1);
    let batch = vec![3, 4, 5];
    let mut first = Worker::new(Phase::Bridge, batch.clone());
    assert_eq!(first.poll(&db), PassStart::Ready);
    assert_eq!(sorted(drain(&mut first)), vec![3, 4, 5]);
    // The worker completes id 3 and then fails.
    bridge_funds(3, BridgeOutcome::Success, &mut db).unwrap();
    assert_eq!(first.begin_pass(Err(StoreError::Connection)), PassStart::Failed(StoreError::Connection));
    assert_eq!(first.next_id(), None);

    let mut second = Worker::new(Phase::Bridge, first.batch_ids().clone());
    assert_eq!(second.batch_ids(), &batch);
    assert_eq!(
        BridgeModuleStateQuery::get_unbridged_state_ids_by_ids(second.batch_ids(), &db),
        Ok(vec![4, 5])
    );
    assert_eq!(second.poll(&db), PassStart::Ready);
    assert_eq!(sorted(drain(&mut second)), vec![4, 5]);
}

#[test]
fn relaunched_warmup_worker_skips_retired_accounts() {
    let mut db = phase_store(4, 0, 0);
    let mut first = Worker::new(Phase::Warmup, vec![1, 2, 3, 4]);
    assert_eq!(first.poll(&db), PassStart::Ready);
    let order = drain(&mut first);
    assert_eq!(sorted(order.clone()), vec![1, 2, 3, 4]);
    for id in &order[..2] {
        assert_eq!(execute_random_warmup_action(*id, &mut db), Ok(None));
    }
    let mut second = Worker::new(Phase::Warmup, vec![1, 2, 3, 4]);
    assert_eq!(second.poll(&db), PassStart::Ready);
    assert_eq!(sorted(drain(&mut second)), sorted(order[2..].to_vec()));
}

#[test]
fn pass_starts_follow_the_answer_of_the_store() {
    let mut worker = Worker::new(Phase::Warmup, vec![1, 2]);
    assert_eq!(worker.phase_of(), Phase::Warmup);
    assert_eq!(worker.next_id(), None);
    assert_eq!(worker.begin_pass(Ok(vec![2, 1, 2])), PassStart::Ready);
    assert_eq!(sorted(drain(&mut worker)), vec![1, 2, 2]);
    assert_eq!(worker.begin_pass(Ok(vec![1])), PassStart::Ready);
    assert_eq!(worker.begin_pass(Ok(vec![])), PassStart::Finished);
    assert_eq!(worker.next_id(), None);
    assert_eq!(worker.begin_pass(Err(StoreError::RecordNotFound)), PassStart::Finished);
    assert_eq!(
        worker.begin_pass(Err(StoreError::Connection)),
        PassStart::Failed(StoreError::Connection)
    );
    assert_eq!(worker.batch_ids(), &vec![1, 2]);
}

#[test]
fn shuffling_changes_the_order_sometimes() {
    let ids: Vec<i32> = (1..=20).collect();
    let mut moved = false;
    for _ in 0..20 {
        let mut worker = Worker::new(Phase::Bridge, ids.clone());
        assert_eq!(worker.begin_pass(Ok(ids.clone())), PassStart::Ready);
        let order = drain(&mut worker);
        assert_eq!(sorted(order.clone()), ids);
        moved = moved || order != ids;
    }
    assert!(moved);
}

#[test]
fn supervisor_relaunches_the_same_batch_until_it_succeeds() {
    let ids: Vec<i32> = (1..=7).collect();
    let mut supervisor = Supervisor::launch(&ids, 3);
    assert_eq!(supervisor.batch_count(), 3);
    assert_eq!(supervisor.batch(0), &vec![1, 2, 3]);
    assert_eq!(supervisor.batch(1), &vec![4, 5, 6]);
    assert_eq!(supervisor.batch(2), &vec![7]);
    assert!(!supervisor.is_complete());
    assert_eq!(supervisor.on_worker_finished(1, false), Verdict::Relaunch);
    assert_eq!(supervisor.batch(1), &vec![4, 5, 6]);
    assert_eq!(supervisor.on_worker_finished(0, true), Verdict::Retire);
    assert_eq!(supervisor.on_worker_finished(2, true), Verdict::Retire);
    assert!(!supervisor.is_complete());
    assert_eq!(supervisor.on_worker_finished(1, false), Verdict::Relaunch);
    assert_eq!(supervisor.on_worker_finished(1, true), Verdict::Retire);
    assert!(supervisor.is_complete());
    assert_eq!(supervisor.batch_count(), 3);
    assert_eq!(supervisor.batch(1), &vec![4, 5, 6]);
}

#[test]
fn phase_without_pending_ids_is_complete_at_once() {
    let supervisor = Supervisor::launch(&Vec::new(), 4);
    assert_eq!(supervisor.batch_count(), 0);
    assert!(supervisor.is_complete());
    let db = Database::new();
    assert!(bridge_mode(&db, &phase_config(3)).is_complete());
    assert!(warmup_mode(&db, &phase_config(3)).is_complete());
}

#[test]
fn bridge_mode_batches_the_unbridged_accounts() {
    let mut db = phase_store(5, 1, 1);
    bridge_funds(2, BridgeOutcome::Success, &mut db).unwrap();
    let supervisor = bridge_mode(&db, &phase_config(2));
    assert_eq!(supervisor.batch_count(), 2);
    assert_eq!(supervisor.batch(0), &vec![1, 3]);
    assert_eq!(supervisor.batch(1), &vec![4, 5]);
}

#[test]
fn warmup_mode_batches_the_active_accounts() {
    let mut db = phase_store(5, 0, 0);
    assert_eq!(execute_random_warmup_action(4, &mut db), Ok(None));
    let supervisor = warmup_mode(&db, &phase_config(3));
    assert_eq!(supervisor.batch_count(), 2);
    assert_eq!(supervisor.batch(0), &vec![1, 2]);
    assert_eq!(supervisor.batch(1), &vec![3, 5]);
    assert_eq!(worker_count(&phase_config(3)), 3);
}

#[test]
fn bridge_amount_is_cut_to_the_step_and_raised_to_the_minimum() {
    // 1 ether, 50 %: 0.5 ether exactly.
    assert_eq!(bridge_amount(1_000_000_000_000_000_000, 50), Some(500_000_000_000_000_000));
    // 33 % of 123456789123456789 = 40740740410740740.37, cut to a multiple of 10^11.
    assert_eq!(bridge_amount(123_456_789_123_456_789, 33), Some(40_740_700_000_000_000));
    // Small shares are raised to 0.002 ether.
    assert_eq!(bridge_amount(1_000_000_000_000_000, 50), Some(2_000_000_000_000_000));
    assert_eq!(bridge_amount(0, 100), Some(2_000_000_000_000_000));
    assert_eq!(bridge_amount(u128::MAX, 0), Some(2_000_000_000_000_000));
    assert_eq!(bridge_amount(4_000_000_000_000_000, 50), Some(2_000_000_000_000_000));
    assert_eq!(bridge_amount(4_000_200_000_000_000, 50), Some(2_000_100_000_000_000));
    assert_eq!(bridge_amount(u128::MAX, 2), None);
    assert_eq!(bridge_amount(u128::MAX / 2 + 1, 2), None);
}

#[test]
fn drawn_bridge_amount_uses_the_configured_share() {
    let config = phase_config(1);
    assert_eq!(
        draw_bridge_amount(10_000_000_000_000_000_000, &config),
        Some(5_000_000_000_000_000_000)
    );
}

#[test]
fn swap_amount_is_the_share_rounded_down() {
    assert_eq!(lifinity_swap_amount(1_000, 37), Some(370));
    assert_eq!(lifinity_swap_amount(999, 10), Some(99));
    assert_eq!(lifinity_swap_amount(5, 19), Some(0));
    assert_eq!(lifinity_swap_amount(0, 100), Some(0));
    assert_eq!(lifinity_swap_amount(u64::MAX, 1), Some(u64::MAX / 100));
    assert_eq!(lifinity_swap_amount(u64::MAX, 2), None);
    let drawn = draw_swap_amount(1_000, &phase_config(1)).unwrap();
    assert!((300..=400).contains(&drawn));
}

#[test]
fn delay_is_drawn_from_the_range_of_the_phase() {
    let mut config = phase_config(1);
    config.bridge.wallet_sleep_delay_range = [7, 7];
    config.lifinity.wallet_sleep_delay_range = [12, 10];
    assert_eq!(Worker::new(Phase::Bridge, vec![1]).draw_delay(&config), 7);
    for _ in 0..50 {
        let seconds = Worker::new(Phase::Warmup, vec![1]).draw_delay(&config);
        assert!((10..=12).contains(&seconds));
    }
}

#[test]
fn recorded_outcome_counts_the_action_that_ran() {
    let mut db = phase_store(2, 3, 3);
    let swap = WarmupAction::LifinitySwap;
    let mint = WarmupAction::UnderdogCreate;
    assert_eq!(record_warmup_outcome(2, swap, ActionOutcome::Success, &mut db), Ok(()));
    assert_eq!(record_warmup_outcome(2, mint, ActionOutcome::Failure, &mut db), Ok(()));
    assert_eq!(record_warmup_outcome(2, mint, ActionOutcome::Success, &mut db), Ok(()));
    assert_eq!(record_warmup_outcome(2, mint, ActionOutcome::Success, &mut db), Ok(()));
    let account = AccountQuery::find_account_by_id(2, &db).unwrap();
    assert_eq!((account.swap_count, account.create_count), (1, 2));
    assert_eq!(
        record_warmup_outcome(9, swap, ActionOutcome::Success, &mut db),
        Err(StoreError::RecordNotFound)
    );
    assert_eq!(record_warmup_outcome(9, swap, ActionOutcome::Failure, &mut db), Ok(()));
}

#[test]
fn menu_entries_map_to_actions() {
    assert_eq!(menu_action(0), MenuAction::DatabaseMenu);
    assert_eq!(menu_action(1), MenuAction::BridgeMode);
    assert_eq!(menu_action(2), MenuAction::WarmupMode);
    assert_eq!(menu_action(3), MenuAction::Exit);
    assert_eq!(menu_action(4), MenuAction::Invalid);
    assert_eq!(db_menu_action(0), DbMenuAction::Generate);
    assert_eq!(db_menu_action(1), DbMenuAction::Append);
    assert_eq!(db_menu_action(2), DbMenuAction::Back);
    assert_eq!(db_menu_action(3), DbMenuAction::Invalid);
}
