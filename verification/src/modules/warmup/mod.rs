//! The warmup phase: swaps and mints until every account has met its goal.

use crate::config::Config;
use crate::db::entities::{
    spec_account_index, spec_goal_index, AccountGoalModel, AccountModel, Database, StoreError,
};
use crate::db::service::account::mutation::{
    spec_create_counted, spec_retired, spec_swap_counted, Mutation as AccountMutation,
};
use crate::db::service::account::query::{spec_active_accounts, Query as AccountQuery};
use crate::db::service::account_goal::query::Query as AccountGoalQuery;
use crate::modules::batch::spec_batches;
use crate::modules::supervisor::Supervisor;
use crate::utils::misc::{random_in_range, spec_range_high, spec_range_low};
use action::{
    spec_action_due, spec_create_due, spec_quota_state, spec_swap_due, spec_within_quota,
    QuotaState, WarmupAction,
};
use vstd::prelude::*;

pub mod action;

verus! {

/// How an action on the chain ended.
#[derive(Clone, Copy, Debug, PartialEq, Eq, Structural)]
pub enum ActionOutcome {
    /// The action went through.
    Success,
    /// The action failed; the account stays pending and is tried again in a
    /// later pass.
    Failure,
}

/// The ids of a list of accounts.
pub open spec fn spec_account_ids(accounts: Seq<AccountModel>) -> Seq<i32> {
    accounts.map_values(|a: AccountModel| a.id)
}

/// The number of workers that a configured count stands for.
pub open spec fn spec_worker_count(thread_count: u64) -> nat {
    if thread_count > usize::MAX {
        usize::MAX as nat
    } else {
        thread_count as nat
    }
}

/// Reads the number of workers from the settings.
pub fn worker_count(config: &Config) -> (workers: usize)
    ensures
        workers == spec_worker_count(config.general.thread_count),
{
    if config.general.thread_count > usize::MAX as u64 {
        usize::MAX
    } else {
        config.general.thread_count as usize
    }
}

/// Begins the warmup: splits the ids of all active accounts into batches, one
/// for each worker that the settings allow.
///
/// With no active account there is no batch, and the phase is complete
/// before any worker starts.
pub fn warmup_mode(db: &Database, config: &Config) -> (supervisor: Supervisor)
    requires
        config.general.thread_count > 0,
    ensures
        supervisor.batches() == spec_batches(
            spec_account_ids(spec_active_accounts(db.accounts())),
            spec_worker_count(config.general.thread_count),
        ),
        supervisor.retired().len() == supervisor.batches().len(),
        forall|i: int| 0 <= i < supervisor.retired().len() ==> !supervisor.retired()[i],
{
    let mut ids: Vec<i32> = Vec::new();
    match AccountQuery::get_active_accounts(db) {
        Ok(accounts) => {
            let mut at: usize = 0;
            while at < accounts.len()
                invariant
                    at <= accounts.len(),
                    ids@ == spec_account_ids(accounts@.take(at as int)),
                decreases accounts.len() - at,
            {
                ids.push(accounts[at].id);
                at = at + 1;
                assert(ids@ =~= spec_account_ids(accounts@.take(at as int)));
            }
            assert(accounts@.take(at as int) =~= accounts@);
        },
        Err(_) => {
            assert(spec_active_accounts(db.accounts()) =~= Seq::<AccountModel>::empty());
            assert(ids@ =~= spec_account_ids(Seq::<AccountModel>::empty()));
        },
    }
    Supervisor::launch(&ids, worker_count(config))
}

/// The account after one cycle of the warmup: taken out where its quota is
/// met, one action further where the picked action succeeded, and unchanged
/// where it failed.
pub open spec fn spec_after_cycle(
    account: AccountModel,
    goal: AccountGoalModel,
    picked: WarmupAction,
    outcome: ActionOutcome,
) -> AccountModel {
    if spec_quota_state(account, goal) == QuotaState::Exhausted {
        spec_retired(account)
    } else if outcome == ActionOutcome::Success {
        spec_after_success(account, picked)
    } else {
        account
    }
}

/// The account after an action that went through.
pub open spec fn spec_after_success(account: AccountModel, action: WarmupAction) -> AccountModel {
    match action {
        WarmupAction::LifinitySwap => spec_swap_counted(account),
        WarmupAction::UnderdogCreate => spec_create_counted(account),
    }
}

/// Acts on what the selector picked for an account: with nothing picked the
/// account is taken out of the warmup, and no action runs in this cycle;
/// otherwise the picked action is handed on and the store stays as it is.
pub fn retire_or_run(id: i32, picked: Option<WarmupAction>, db: &mut Database) -> (res: Result<
    Option<WarmupAction>,
    StoreError,
>)
    ensures
        final(db).goals() == old(db).goals(),
        final(db).bridge_states() == old(db).bridge_states(),
        picked is Some ==> res == Ok::<Option<WarmupAction>, StoreError>(picked)
            && final(db).accounts() == old(db).accounts(),
        picked is None ==> match spec_account_index(old(db).accounts(), id as int) {
            None => res == Err::<Option<WarmupAction>, StoreError>(StoreError::RecordNotFound)
                && final(db).accounts() == old(db).accounts(),
            Some(i) => res == Ok::<Option<WarmupAction>, StoreError>(None) && final(db).accounts()
                == old(db).accounts().update(i, spec_retired(old(db).accounts()[i])),
        },
{
    match picked {
        Some(action) => Ok(Some(action)),
        None => match AccountMutation::mark_as_inactive(id, db) {
            Ok(_) => Ok(None),
            Err(e) => Err(e),
        },
    }
}

/// Decides what the account with this id does in this cycle.
///
/// The account and its goal are read from the store. Where both quotas are
/// met the account is marked inactive and nothing runs. Otherwise an action
/// whose quota is not met is picked, at random where both are open, and the
/// store stays as it is. Without the account or its goal the cycle fails
/// with `RecordNotFound`.
pub fn execute_random_warmup_action(id: i32, db: &mut Database) -> (res: Result<
    Option<WarmupAction>,
    StoreError,
>)
    ensures
        final(db).goals() == old(db).goals(),
        final(db).bridge_states() == old(db).bridge_states(),
        match (
            spec_account_index(old(db).accounts(), id as int),
            spec_goal_index(old(db).goals(), id as int),
        ) {
            (Some(i), Some(g)) => {
                let account = old(db).accounts()[i];
                let goal = old(db).goals()[g];
                match spec_quota_state(account, goal) {
                    QuotaState::Exhausted => res == Ok::<Option<WarmupAction>, StoreError>(None)
                        && final(db).accounts() == old(db).accounts().update(
                        i,
                        spec_retired(account),
                    ),
                    QuotaState::HasSwapQuota => res == Ok::<Option<WarmupAction>, StoreError>(
                        Some(WarmupAction::LifinitySwap),
                    ) && final(db).accounts() == old(db).accounts(),
                    QuotaState::HasMintQuota => res == Ok::<Option<WarmupAction>, StoreError>(
                        Some(WarmupAction::UnderdogCreate),
                    ) && final(db).accounts() == old(db).accounts(),
                    QuotaState::Both => res is Ok && res.unwrap() is Some && final(db).accounts()
                        == old(db).accounts(),
                }
            },
            _ => res == Err::<Option<WarmupAction>, StoreError>(StoreError::RecordNotFound)
                && final(db).accounts() == old(db).accounts(),
        },
{
    let account = match AccountQuery::find_account_by_id(id, db) {
        Ok(account) => account,
        Err(e) => {
            return Err(e);
        },
    };
    let goal = match AccountGoalQuery::get_account_goal_by_id(id, db) {
        Ok(goal) => goal,
        Err(e) => {
            return Err(e);
        },
    };
    let picked = account.get_random_warmup_action(goal);
    retire_or_run(id, picked, db)
}

/// Takes note of how a swap ended: a swap that went through is counted, a
/// failed one leaves the store as it is.
pub fn execute_lifinity_swap(account_id: i32, outcome: ActionOutcome, db: &mut Database) -> (res:
    Result<(), StoreError>)
    ensures
        final(db).goals() == old(db).goals(),
        final(db).bridge_states() == old(db).bridge_states(),
        outcome == ActionOutcome::Failure ==> res is Ok && final(db).accounts()
            == old(db).accounts(),
        outcome == ActionOutcome::Success ==> match spec_account_index(
            old(db).accounts(),
            account_id as int,
        ) {
            None => res == Err::<(), StoreError>(StoreError::RecordNotFound) && final(db).accounts()
                == old(db).accounts(),
            Some(i) => if old(db).accounts()[i].swap_count == i32::MAX {
                res == Err::<(), StoreError>(StoreError::Overflow) && final(db).accounts()
                    == old(db).accounts()
            } else {
                res is Ok && final(db).accounts() == old(db).accounts().update(
                    i,
                    spec_swap_counted(old(db).accounts()[i]),
                )
            },
        },
{
    match outcome {
        ActionOutcome::Success => match AccountMutation::increase_swap_count(account_id, db) {
            Ok(_) => Ok(()),
            Err(e) => Err(e),
        },
        ActionOutcome::Failure => Ok(()),
    }
}

/// Takes note of how a mint ended: a mint that went through is counted, a
/// failed one leaves the store as it is.
pub fn execute_underdog_create_nft(
    account_id: i32,
    outcome: ActionOutcome,
    db: &mut Database,
) -> (res: Result<(), StoreError>)
    ensures
        final(db).goals() == old(db).goals(),
        final(db).bridge_states() == old(db).bridge_states(),
        outcome == ActionOutcome::Failure ==> res is Ok && final(db).accounts()
            == old(db).accounts(),
        outcome == ActionOutcome::Success ==> match spec_account_index(
            old(db).accounts(),
            account_id as int,
        ) {
            None => res == Err::<(), StoreError>(StoreError::RecordNotFound) && final(db).accounts()
                == old(db).accounts(),
            Some(i) => if old(db).accounts()[i].create_count == i32::MAX {
                res == Err::<(), StoreError>(StoreError::Overflow) && final(db).accounts()
                    == old(db).accounts()
            } else {
                res is Ok && final(db).accounts() == old(db).accounts().update(
                    i,
                    spec_create_counted(old(db).accounts()[i]),
                )
            },
        },
{
    match outcome {
        ActionOutcome::Success => match AccountMutation::increase_create_count(account_id, db) {
            Ok(_) => Ok(()),
            Err(e) => Err(e),
        },
        ActionOutcome::Failure => Ok(()),
    }
}

/// The counter that an action makes grow.
pub open spec fn spec_counter(account: AccountModel, action: WarmupAction) -> i32 {
    match action {
        WarmupAction::LifinitySwap => account.swap_count,
        WarmupAction::UnderdogCreate => account.create_count,
    }
}

/// Takes note of how the action that was picked for an account ended: an
/// action that went through is counted, a failed one leaves the store as it
/// is.
pub fn record_warmup_outcome(
    account_id: i32,
    action: WarmupAction,
    outcome: ActionOutcome,
    db: &mut Database,
) -> (res: Result<(), StoreError>)
    ensures
        final(db).goals() == old(db).goals(),
        final(db).bridge_states() == old(db).bridge_states(),
        outcome == ActionOutcome::Failure ==> res is Ok && final(db).accounts()
            == old(db).accounts(),
        outcome == ActionOutcome::Success ==> match spec_account_index(
            old(db).accounts(),
            account_id as int,
        ) {
            None => res == Err::<(), StoreError>(StoreError::RecordNotFound) && final(db).accounts()
                == old(db).accounts(),
            Some(i) => if spec_counter(old(db).accounts()[i], action) == i32::MAX {
                res == Err::<(), StoreError>(StoreError::Overflow) && final(db).accounts()
                    == old(db).accounts()
            } else {
                res is Ok && final(db).accounts() == old(db).accounts().update(
                    i,
                    spec_after_success(old(db).accounts()[i], action),
                )
            },
        },
{
    match action {
        WarmupAction::LifinitySwap => execute_lifinity_swap(account_id, outcome, db),
        WarmupAction::UnderdogCreate => execute_underdog_create_nft(account_id, outcome, db),
    }
}

/// The share of a balance that goes into a swap: `percentage` hundredths of
/// it, rounded down.
pub open spec fn spec_swap_amount(balance: u64, percentage: u32) -> int {
    balance * percentage / 100
}

/// Computes the amount of a swap from the balance and a percentage.
///
/// The product is formed before the division, as a number of 64 bits: where
/// it does not fit, there is no amount.
pub fn lifinity_swap_amount(balance: u64, percentage: u32) -> (amount: Option<u64>)
    ensures
        balance * percentage <= u64::MAX ==> amount == Some(
            spec_swap_amount(balance, percentage) as u64,
        ),
        balance * percentage > u64::MAX ==> amount is None,
{
    assert(balance * percentage <= 0xffff_ffff_ffff_ffff * 0xffff_ffff) by (nonlinear_arith)
        requires
            0 <= balance <= 0xffff_ffff_ffff_ffff,
            0 <= percentage <= 0xffff_ffff,
    ;
    let product: u128 = (balance as u128) * (percentage as u128);
    if product > u64::MAX as u128 {
        None
    } else {
        Some((product / 100) as u64)
    }
}

/// Draws the share of the balance for a swap from the configured range and
/// computes the amount.
pub fn draw_swap_amount(balance: u64, config: &Config) -> (amount: Option<u64>)
    ensures
        exists|percentage: u32|
            {
                &&& spec_range_low(config.lifinity.balance_percentage_range) <= percentage
                    <= spec_range_high(config.lifinity.balance_percentage_range)
                &&& if balance * percentage <= u64::MAX {
                    amount == Some(#[trigger] spec_swap_amount(balance, percentage) as u64)
                } else {
                    amount is None
                }
            },
{
    let percentage = random_in_range(config.lifinity.balance_percentage_range);
    let amount = lifinity_swap_amount(balance, percentage);
    proof {
        let _ = spec_swap_amount(balance, percentage);
    }
    amount
}

/// Quota monotonicity: one cycle of the warmup never lowers a counter and
/// never takes one past its target. This holds of an account whose counters
/// lie between zero and their targets, for any action that the selector may
/// pick and however the action ends.
pub proof fn lemma_cycle_respects_quota(
    account: AccountModel,
    goal: AccountGoalModel,
    picked: WarmupAction,
    outcome: ActionOutcome,
)
    requires
        spec_within_quota(account, goal),
        spec_quota_state(account, goal) != QuotaState::Exhausted ==> spec_action_due(
            account,
            goal,
            picked,
        ),
    ensures
        spec_after_cycle(account, goal, picked, outcome).swap_count >= account.swap_count,
        spec_after_cycle(account, goal, picked, outcome).create_count >= account.create_count,
        spec_within_quota(spec_after_cycle(account, goal, picked, outcome), goal),
        spec_after_cycle(account, goal, picked, outcome).id == account.id,
{
}

/// Terminal exhaustion: an account whose counters have reached their targets
/// is taken out of the warmup by its next cycle, without an action; and an
/// account that is out stays out, whatever cycle follows.
pub proof fn lemma_exhausted_account_is_retired(
    account: AccountModel,
    goal: AccountGoalModel,
    picked: WarmupAction,
    outcome: ActionOutcome,
)
    ensures
        account.swap_count >= goal.swap_count && account.create_count >= goal.create_count
            ==> spec_quota_state(account, goal) == QuotaState::Exhausted && !spec_after_cycle(
            account,
            goal,
            picked,
            outcome,
        ).is_active,
        !account.is_active ==> !spec_after_cycle(account, goal, picked, outcome).is_active,
        !account.is_active ==> !spec_swap_counted(account).is_active && !spec_create_counted(
            account,
        ).is_active && !spec_retired(account).is_active,
{
}

/// Between two states of the account table nothing was undone: every account
/// of before is still there under its id, no counter is lower, and no
/// account that was inactive is active.
pub open spec fn spec_progress_kept(before: Seq<AccountModel>, after: Seq<AccountModel>) -> bool {
    &&& before.len() <= after.len()
    &&& forall|i: int|
        #![trigger after[i]]
        0 <= i < before.len() ==> {
            &&& after[i].id == before[i].id
            &&& after[i].swap_count >= before[i].swap_count
            &&& after[i].create_count >= before[i].create_count
            &&& after[i].is_active ==> before[i].is_active
        }
}

/// Whatever the run does to the account table undoes nothing: a new account,
/// a counted swap, a counted mint and the retirement of an account all keep
/// every counter at least as high as it was and every inactive account
/// inactive. Any number of such steps does so too.
pub proof fn lemma_run_keeps_progress(
    accounts: Seq<AccountModel>,
    at: int,
    fresh: AccountModel,
    later: Seq<AccountModel>,
    last: Seq<AccountModel>,
)
    ensures
        spec_progress_kept(accounts, accounts),
        spec_progress_kept(accounts, accounts.push(fresh)),
        0 <= at < accounts.len() && accounts[at].swap_count < i32::MAX ==> spec_progress_kept(
            accounts,
            accounts.update(at, spec_swap_counted(accounts[at])),
        ),
        0 <= at < accounts.len() && accounts[at].create_count < i32::MAX ==> spec_progress_kept(
            accounts,
            accounts.update(at, spec_create_counted(accounts[at])),
        ),
        0 <= at < accounts.len() ==> spec_progress_kept(
            accounts,
            accounts.update(at, spec_retired(accounts[at])),
        ),
        spec_progress_kept(accounts, later) && spec_progress_kept(later, last)
            ==> spec_progress_kept(accounts, last),
{
    if spec_progress_kept(accounts, later) && spec_progress_kept(later, last) {
        assert forall|i: int| 0 <= i < accounts.len() implies {
            &&& (#[trigger] last[i]).id == accounts[i].id
            &&& last[i].swap_count >= accounts[i].swap_count
            &&& last[i].create_count >= accounts[i].create_count
            &&& last[i].is_active ==> accounts[i].is_active
        } by {
            assert(later[i].id == accounts[i].id);
        }
    }
}

/// Every account that has a goal has both counters between zero and their
/// targets.
pub open spec fn spec_quotas_respected(db: Database) -> bool {
    forall|i: int, g: int|
        0 <= i < db.accounts().len() && 0 <= g < db.goals().len() && (
        #[trigger] db.accounts()[i]).id == (#[trigger] db.goals()[g]).id ==> spec_within_quota(
            db.accounts()[i],
            db.goals()[g],
        )
}

/// Quota monotonicity, of the store: a cycle of the warmup on one account
/// leaves every account of the store within its quota, lowers no counter and
/// makes no inactive account active. The cycle is what
/// `execute_random_warmup_action` does and then, for the action it picked,
/// `execute_lifinity_swap` or `execute_underdog_create_nft`; a counter that
/// is due to grow is below its target and so below the largest number, and
/// the store does not refuse to count.
pub proof fn lemma_cycle_keeps_quotas(
    before: Database,
    after: Database,
    at: int,
    g: int,
    picked: WarmupAction,
    outcome: ActionOutcome,
)
    requires
        before.wf(),
        spec_quotas_respected(before),
        0 <= at < before.accounts().len(),
        0 <= g < before.goals().len(),
        before.accounts()[at].id == before.goals()[g].id,
        spec_quota_state(before.accounts()[at], before.goals()[g]) != QuotaState::Exhausted
            ==> spec_action_due(before.accounts()[at], before.goals()[g], picked),
        after.goals() == before.goals(),
        after.accounts() == before.accounts().update(
            at,
            spec_after_cycle(before.accounts()[at], before.goals()[g], picked, outcome),
        ),
    ensures
        spec_quotas_respected(after),
        spec_progress_kept(before.accounts(), after.accounts()),
        before.accounts()[at].swap_count < i32::MAX || !spec_swap_due(
            before.accounts()[at],
            before.goals()[g],
        ),
        before.accounts()[at].create_count < i32::MAX || !spec_create_due(
            before.accounts()[at],
            before.goals()[g],
        ),
{
    let account = before.accounts()[at];
    let goal = before.goals()[g];
    assert(spec_within_quota(account, goal));
    lemma_cycle_respects_quota(account, goal, picked, outcome);
    assert forall|i: int, h: int|
        0 <= i < after.accounts().len() && 0 <= h < after.goals().len() && (
        #[trigger] after.accounts()[i]).id
            == (#[trigger] after.goals()[h]).id implies spec_within_quota(
        after.accounts()[i],
        after.goals()[h],
    ) by {
        if i == at {
            if h != g {
                if h < g {
                    assert(before.goals()[h].id != before.goals()[g].id);
                } else {
                    assert(before.goals()[g].id != before.goals()[h].id);
                }
            }
        } else {
            assert(after.accounts()[i] == before.accounts()[i]);
            assert(spec_within_quota(before.accounts()[i], before.goals()[h]));
        }
    }
}

} // verus!
