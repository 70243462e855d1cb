//! Which action an account runs next, given what it has done and what it is to do.

use crate::db::entities::{AccountGoalModel, AccountModel};
use crate::utils::misc::choose_one;
use vstd::prelude::*;

verus! {

/// An action of the warmup.
#[derive(Clone, Copy, Debug, PartialEq, Eq, Structural)]
pub enum WarmupAction {
    /// A swap on Lifinity.
    LifinitySwap,
    /// A mint on Underdog.
    UnderdogCreate,
}

/// What is left of an account's quota.
#[derive(Clone, Copy, Debug, PartialEq, Eq, Structural)]
pub enum QuotaState {
    /// Both quotas are met.
    Exhausted,
    /// Only swaps are left.
    HasSwapQuota,
    /// Only mints are left.
    HasMintQuota,
    /// Swaps and mints are left.
    Both,
}

/// The account has made fewer swaps than its goal asks for.
pub open spec fn spec_swap_due(account: AccountModel, goal: AccountGoalModel) -> bool {
    account.swap_count < goal.swap_count
}

/// The account has made fewer mints than its goal asks for.
pub open spec fn spec_create_due(account: AccountModel, goal: AccountGoalModel) -> bool {
    account.create_count < goal.create_count
}

/// What is left of the quota, from the counters and the goal alone.
pub open spec fn spec_quota_state(account: AccountModel, goal: AccountGoalModel) -> QuotaState {
    if spec_swap_due(account, goal) && spec_create_due(account, goal) {
        QuotaState::Both
    } else if spec_swap_due(account, goal) {
        QuotaState::HasSwapQuota
    } else if spec_create_due(account, goal) {
        QuotaState::HasMintQuota
    } else {
        QuotaState::Exhausted
    }
}

/// The actions that a quota state allows: the swap first, then the mint.
pub open spec fn spec_actions_for(state: QuotaState) -> Seq<WarmupAction> {
    match state {
        QuotaState::Exhausted => seq![],
        QuotaState::HasSwapQuota => seq![WarmupAction::LifinitySwap],
        QuotaState::HasMintQuota => seq![WarmupAction::UnderdogCreate],
        QuotaState::Both => seq![WarmupAction::LifinitySwap, WarmupAction::UnderdogCreate],
    }
}

/// The action may run: its quota is not met.
pub open spec fn spec_action_due(
    account: AccountModel,
    goal: AccountGoalModel,
    action: WarmupAction,
) -> bool {
    match action {
        WarmupAction::LifinitySwap => spec_swap_due(account, goal),
        WarmupAction::UnderdogCreate => spec_create_due(account, goal),
    }
}

/// Both counters lie between zero and their targets.
pub open spec fn spec_within_quota(account: AccountModel, goal: AccountGoalModel) -> bool {
    &&& 0 <= account.swap_count <= goal.swap_count
    &&& 0 <= account.create_count <= goal.create_count
}

/// Tells what is left of the quota.
pub fn quota_state(account: &AccountModel, goal: &AccountGoalModel) -> (state: QuotaState)
    ensures
        state == spec_quota_state(*account, *goal),
{
    let swap_due = account.swap_count < goal.swap_count;
    let create_due = account.create_count < goal.create_count;
    if swap_due && create_due {
        QuotaState::Both
    } else if swap_due {
        QuotaState::HasSwapQuota
    } else if create_due {
        QuotaState::HasMintQuota
    } else {
        QuotaState::Exhausted
    }
}

/// Lists the actions that a quota state allows.
pub fn actions_for(state: QuotaState) -> (actions: Vec<WarmupAction>)
    ensures
        actions@ == spec_actions_for(state),
{
    let mut actions: Vec<WarmupAction> = Vec::new();
    match state {
        QuotaState::Exhausted => {},
        QuotaState::HasSwapQuota => {
            actions.push(WarmupAction::LifinitySwap);
        },
        QuotaState::HasMintQuota => {
            actions.push(WarmupAction::UnderdogCreate);
        },
        QuotaState::Both => {
            actions.push(WarmupAction::LifinitySwap);
            actions.push(WarmupAction::UnderdogCreate);
        },
    }
    assert(actions@ =~= spec_actions_for(state));
    actions
}

impl AccountModel {
    /// Picks the next action of the account at random among those whose quota
    /// is not met.
    ///
    /// With both quotas met there is none. With one quota met it is the
    /// other action. With neither met it is the swap or the mint.
    pub fn get_random_warmup_action(&self, goal: AccountGoalModel) -> (picked: Option<
        WarmupAction,
    >)
        ensures
            picked is None <==> spec_quota_state(*self, goal) == QuotaState::Exhausted,
            picked is Some ==> spec_action_due(*self, goal, picked.unwrap()),
            spec_quota_state(*self, goal) == QuotaState::HasSwapQuota ==> picked == Some(
                WarmupAction::LifinitySwap,
            ),
            spec_quota_state(*self, goal) == QuotaState::HasMintQuota ==> picked == Some(
                WarmupAction::UnderdogCreate,
            ),
    {
        let actions = actions_for(quota_state(self, &goal));
        let picked = choose_one(&actions);
        proof {
            if picked is Some {
                let action = picked.unwrap();
                let at = choose|i: int| 0 <= i < actions@.len() && actions@[i] == action;
                assert(actions@[at] == action);
            }
        }
        picked
    }
}

} // verus!
