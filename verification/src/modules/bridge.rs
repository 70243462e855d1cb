//! The bridge phase: the funds of every account move to the other chain, once.

use crate::config::Config;
use crate::db::entities::{spec_bridge_state_index, BridgeStateModel, Database, StoreError};
use crate::db::service::bridge_module_state::mutation::Mutation as BridgeModuleStateMutation;
use crate::db::service::bridge_module_state::query::{
    spec_unbridged_states, Query as BridgeModuleStateQuery,
};
use crate::modules::batch::spec_batches;
use crate::modules::supervisor::Supervisor;
use crate::modules::warmup::{spec_worker_count, worker_count};
use crate::utils::misc::{random_in_range, spec_range_high, spec_range_low};
use vstd::prelude::*;

verus! {

/// How a bridge transfer ended.
#[derive(Clone, Copy, Debug, PartialEq, Eq, Structural)]
pub enum BridgeOutcome {
    /// The transfer was sent and confirmed.
    Success,
    /// The bridge refused the amount as too small.
    InsufficientIntentAmount,
    /// The transfer was sent and failed on the chain.
    TransactionFailed,
    /// The transfer could not be sent.
    TransportError,
}

/// Amounts are cut down to a multiple of this many wei.
pub const AMOUNT_STEP: u128 = 100_000_000_000;

/// The smallest amount that the bridge takes, in wei: 0.002 ether.
pub const MIN_BRIDGE_AMOUNT: u128 = 2_000_000_000_000_000;

/// The ids of a list of bridge states.
pub open spec fn spec_state_ids(states: Seq<BridgeStateModel>) -> Seq<i32> {
    states.map_values(|s: BridgeStateModel| s.id)
}

/// The amount to bridge for a balance and a share of it in percent: the
/// share, rounded down to a multiple of the step, and the smallest amount
/// that the bridge takes where that is less.
pub open spec fn spec_bridge_amount(balance: u128, percentage: u32) -> int {
    let share = balance * percentage / 100;
    let cut = (share / (AMOUNT_STEP as int)) * AMOUNT_STEP;
    if cut < MIN_BRIDGE_AMOUNT {
        MIN_BRIDGE_AMOUNT as int
    } else {
        cut
    }
}

/// Computes the amount to bridge, in wei, from the balance and a percentage.
///
/// The product of the two is formed before the division, as a number of 128
/// bits: where it does not fit, there is no amount.
pub fn bridge_amount(balance: u128, percentage: u32) -> (amount: Option<u128>)
    ensures
        balance * percentage <= u128::MAX ==> amount == Some(
            spec_bridge_amount(balance, percentage) as u128,
        ),
        balance * percentage > u128::MAX ==> amount is None,
{
    let factor: u128 = percentage as u128;
    if factor != 0 && balance > u128::MAX / factor {
        assert(balance * percentage > u128::MAX) by (nonlinear_arith)
            requires
                factor == percentage,
                factor > 0,
                balance > u128::MAX / factor,
        ;
        return None;
    }
    assert(balance * percentage <= u128::MAX) by (nonlinear_arith)
        requires
            factor == percentage,
            factor == 0 || balance <= u128::MAX / factor,
            balance >= 0,
    ;
    let share: u128 = balance * factor / 100;
    let steps: u128 = share / AMOUNT_STEP;
    assert(steps * AMOUNT_STEP <= share) by (nonlinear_arith)
        requires
            steps == share / AMOUNT_STEP,
            AMOUNT_STEP == 100_000_000_000,
    ;
    let cut: u128 = steps * AMOUNT_STEP;
    if cut < MIN_BRIDGE_AMOUNT {
        Some(MIN_BRIDGE_AMOUNT)
    } else {
        Some(cut)
    }
}

/// Draws the share of the balance to bridge from the configured range and
/// computes the amount.
pub fn draw_bridge_amount(balance: u128, config: &Config) -> (amount: Option<u128>)
    ensures
        exists|percentage: u32|
            {
                &&& spec_range_low(config.bridge.balance_percentage_range) <= percentage
                    <= spec_range_high(config.bridge.balance_percentage_range)
                &&& if balance * percentage <= u128::MAX {
                    amount == Some(#[trigger] spec_bridge_amount(balance, percentage) as u128)
                } else {
                    amount is None
                }
            },
{
    let percentage = random_in_range(config.bridge.balance_percentage_range);
    let amount = bridge_amount(balance, percentage);
    proof {
        let _ = spec_bridge_amount(balance, percentage);
    }
    amount
}

/// Begins the bridge phase: splits the ids of all accounts whose funds are
/// not bridged into batches, one for each worker that the settings allow.
///
/// With no such account there is no batch, and the phase is complete before
/// any worker starts.
pub fn bridge_mode(db: &Database, config: &Config) -> (supervisor: Supervisor)
    requires
        config.general.thread_count > 0,
    ensures
        supervisor.batches() == spec_batches(
            spec_state_ids(spec_unbridged_states(db.bridge_states())),
            spec_worker_count(config.general.thread_count),
        ),
        supervisor.retired().len() == supervisor.batches().len(),
        forall|i: int| 0 <= i < supervisor.retired().len() ==> !supervisor.retired()[i],
{
    let mut ids: Vec<i32> = Vec::new();
    match BridgeModuleStateQuery::get_accounts_with_unbridged_state(db) {
        Ok(states) => {
            let mut at: usize = 0;
            while at < states.len()
                invariant
                    at <= states.len(),
                    ids@ == spec_state_ids(states@.take(at as int)),
                decreases states.len() - at,
            {
                ids.push(states[at].id);
                at = at + 1;
                assert(ids@ =~= spec_state_ids(states@.take(at as int)));
            }
            assert(states@.take(at as int) =~= states@);
        },
        Err(_) => {
            assert(spec_unbridged_states(db.bridge_states()) =~= Seq::<BridgeStateModel>::empty());
            assert(ids@ =~= spec_state_ids(Seq::<BridgeStateModel>::empty()));
        },
    }
    Supervisor::launch(&ids, worker_count(config))
}

/// Takes note of how the transfer of an account ended.
///
/// After a success the account's funds count as bridged, for good. Every
/// other outcome leaves the store as it is and is no error: the account
/// stays pending and is tried again in a later pass. Only the store can make
/// this fail, with `RecordNotFound` where the account has no bridge state.
pub fn bridge_funds(id: i32, outcome: BridgeOutcome, db: &mut Database) -> (res: Result<
    (),
    StoreError,
>)
    ensures
        final(db).accounts() == old(db).accounts(),
        final(db).goals() == old(db).goals(),
        outcome != BridgeOutcome::Success ==> res is Ok && final(db).bridge_states()
            == old(db).bridge_states(),
        outcome == BridgeOutcome::Success ==> match spec_bridge_state_index(
            old(db).bridge_states(),
            id as int,
        ) {
            None => res == Err::<(), StoreError>(StoreError::RecordNotFound)
                && final(db).bridge_states() == old(db).bridge_states(),
            Some(i) => res is Ok && final(db).bridge_states() == old(db).bridge_states().update(
                i,
                (BridgeStateModel { id, funds_bridged: true }),
            ),
        },
{
    match outcome {
        BridgeOutcome::Success => match BridgeModuleStateMutation::set_funds_bridged(id, db) {
            Ok(_) => Ok(()),
            Err(e) => Err(e),
        },
        _ => Ok(()),
    }
}

} // verus!
