//! One worker: a fixed list of ids, asked again and again for what is left.

use crate::config::Config;
use crate::db::entities::{AccountModel, BridgeStateModel, Database, StoreError};
use crate::db::service::account::query::{spec_active_ids_by_ids, Query as AccountQuery};
use crate::db::service::bridge_module_state::query::{
    spec_unbridged_ids_by_ids, Query as BridgeModuleStateQuery,
};
use crate::utils::misc::{random_in_range, spec_range_high, spec_range_low};
use vstd::prelude::*;

verus! {

/// The stage of a run.
#[derive(Clone, Copy, Debug, PartialEq, Eq, Structural)]
pub enum Phase {
    /// Funds are moved to the other chain, once for each account.
    Bridge,
    /// Accounts swap and mint until their goals are met.
    Warmup,
}

/// How a pass over the batch begins.
#[derive(Clone, Copy, Debug, PartialEq, Eq, Structural)]
pub enum PassStart {
    /// Ids are pending: the worker takes them one by one.
    Ready,
    /// Nothing is pending: the worker has done its batch.
    Finished,
    /// The store failed: the worker gives up and reports the error.
    Failed(StoreError),
}

/// A worker with its batch and what is left of the pass it is in.
pub struct Worker {
    phase: Phase,
    batch: Vec<i32>,
    queue: Vec<i32>,
    next: usize,
}

/// The ids of a batch that are pending in a phase, in the order of the store.
pub open spec fn spec_pending_ids(db: Database, phase: Phase, batch: Seq<i32>) -> Seq<i32> {
    match phase {
        Phase::Bridge => spec_unbridged_ids_by_ids(db.bridge_states(), batch),
        Phase::Warmup => spec_active_ids_by_ids(db.accounts(), batch),
    }
}

/// The range of seconds between two accounts in a phase.
pub open spec fn spec_delay_range(phase: Phase, config: Config) -> [u32; 2] {
    match phase {
        Phase::Bridge => config.bridge.wallet_sleep_delay_range,
        Phase::Warmup => config.lifinity.wallet_sleep_delay_range,
    }
}

/// How a pass begins for what the store answered.
pub open spec fn spec_pass_start(pending: Result<Vec<i32>, StoreError>) -> PassStart {
    match pending {
        Ok(ids) => if ids@.len() == 0 {
            PassStart::Finished
        } else {
            PassStart::Ready
        },
        Err(StoreError::RecordNotFound) => PassStart::Finished,
        Err(e) => PassStart::Failed(e),
    }
}

/// Puts the ids in a random order.
///
/// Calls `rand::seq::SliceRandom::shuffle` on the thread's generator, which
/// swaps items of the slice among themselves. So the list holds the same ids
/// as before, each as often as before; their order is left open.
#[verifier::external_body]
fn shuffle_ids(ids: &mut Vec<i32>)
    ensures
        final(ids)@.to_multiset() == old(ids)@.to_multiset(),
{
    rand::seq::SliceRandom::shuffle(ids.as_mut_slice(), &mut rand::thread_rng());
}

impl Worker {
    /// The stage that the worker serves.
    pub closed spec fn phase(self) -> Phase {
        self.phase
    }

    /// The ids that the worker owns.
    pub closed spec fn batch(self) -> Seq<i32> {
        self.batch@
    }

    /// The ids of the current pass that the worker has not taken yet, in the
    /// order in which it will take them.
    pub closed spec fn remaining(self) -> Seq<i32> {
        self.queue@.subrange(self.next as int, self.queue@.len() as int)
    }

    #[verifier::type_invariant]
    spec fn cursor_in_queue(self) -> bool {
        self.next <= self.queue@.len()
    }

    /// A fresh worker over a batch: it has taken nothing and remembers nothing.
    pub fn new(phase: Phase, batch: Vec<i32>) -> (worker: Worker)
        ensures
            worker.phase() == phase,
            worker.batch() == batch@,
            worker.remaining() == Seq::<i32>::empty(),
    {
        let worker = Worker { phase, batch, queue: Vec::new(), next: 0 };
        assert(worker.remaining() =~= Seq::<i32>::empty());
        worker
    }

    /// The ids that the worker owns.
    pub fn batch_ids(&self) -> (ids: &Vec<i32>)
        ensures
            ids@ == self.batch(),
    {
        &self.batch
    }

    /// The stage that the worker serves.
    pub fn phase_of(&self) -> (phase: Phase)
        ensures
            phase == self.phase(),
    {
        self.phase
    }

    /// Begins a pass with what the store answered to the question which ids
    /// of the batch are pending.
    ///
    /// Pending ids are put in a random order and become what is left of the
    /// pass: the same ids, each as often as the store named it. An empty
    /// answer, or the answer that no record was found, ends the worker's
    /// work. Any other error of the store makes the worker fail. The batch
    /// stays as it is.
    pub fn begin_pass(&mut self, pending: Result<Vec<i32>, StoreError>) -> (start: PassStart)
        ensures
            start == spec_pass_start(pending),
            final(self).batch() == old(self).batch(),
            final(self).phase() == old(self).phase(),
            start == PassStart::Ready ==> final(self).remaining().to_multiset()
                == pending.unwrap()@.to_multiset(),
            start != PassStart::Ready ==> final(self).remaining() == Seq::<i32>::empty(),
    {
        let mut queue: Vec<i32> = Vec::new();
        let start = match pending {
            Ok(ids) => {
                if ids.len() == 0 {
                    PassStart::Finished
                } else {
                    queue = ids;
                    shuffle_ids(&mut queue);
                    PassStart::Ready
                }
            },
            Err(e) => match e {
                StoreError::RecordNotFound => PassStart::Finished,
                _ => PassStart::Failed(e),
            },
        };
        let mut taken = Worker::new(self.phase, Vec::new());
        core::mem::swap(self, &mut taken);
        let Worker { phase, batch, queue: _, next: _ } = taken;
        proof {
            assert(queue@.subrange(0, queue@.len() as int) =~= queue@);
        }
        *self = Worker { phase, batch, queue, next: 0 };
        start
    }

    /// Asks the store which ids of the batch are pending, and begins a pass
    /// with the answer.
    ///
    /// In the bridge phase the ids whose funds are not bridged are pending;
    /// in the warmup those whose accounts are active. The worker keeps
    /// nothing from earlier passes or earlier workers: what is left of the
    /// pass is what the store names now.
    pub fn poll(&mut self, db: &Database) -> (start: PassStart)
        ensures
            final(self).batch() == old(self).batch(),
            final(self).phase() == old(self).phase(),
            final(self).remaining().to_multiset() == spec_pending_ids(
                *db,
                old(self).phase(),
                old(self).batch(),
            ).to_multiset(),
            start == if spec_pending_ids(*db, old(self).phase(), old(self).batch()).len() == 0 {
                PassStart::Finished
            } else {
                PassStart::Ready
            },
    {
        let pending = match self.phase {
            Phase::Bridge => BridgeModuleStateQuery::get_unbridged_state_ids_by_ids(
                self.batch.as_slice(),
                db,
            ),
            Phase::Warmup => AccountQuery::get_active_accounts_ids_by_ids(
                self.batch.as_slice(),
                db,
            ),
        };
        let ghost named = spec_pending_ids(*db, self.phase(), self.batch());
        let start = self.begin_pass(pending);
        proof {
            if named.len() == 0 {
                assert(named =~= Seq::<i32>::empty());
            }
        }
        start
    }

    /// Draws how many seconds the worker rests after an account: a number
    /// from the range that the settings give for the worker's phase, bounds
    /// included.
    pub fn draw_delay(&self, config: &Config) -> (seconds: u32)
        ensures
            spec_range_low(spec_delay_range(self.phase(), *config)) <= seconds <= spec_range_high(
                spec_delay_range(self.phase(), *config),
            ),
    {
        match self.phase {
            Phase::Bridge => random_in_range(config.bridge.wallet_sleep_delay_range),
            Phase::Warmup => random_in_range(config.lifinity.wallet_sleep_delay_range),
        }
    }

    /// Takes the next id of the pass, if one is left.
    pub fn next_id(&mut self) -> (id: Option<i32>)
        ensures
            final(self).batch() == old(self).batch(),
            final(self).phase() == old(self).phase(),
            old(self).remaining().len() == 0 ==> id is None && final(self).remaining()
                == old(self).remaining(),
            old(self).remaining().len() > 0 ==> id == Some(old(self).remaining().first())
                && final(self).remaining() == old(self).remaining().drop_first(),
    {
        proof {
            use_type_invariant(&*self);
        }
        if self.next < self.queue.len() {
            let id = self.queue[self.next];
            let mut taken = Worker::new(self.phase, Vec::new());
            core::mem::swap(self, &mut taken);
            let Worker { phase, batch, queue, next } = taken;
            *self = Worker { phase, batch, queue, next: next + 1 };
            assert(self.remaining() =~= old(self).remaining().drop_first());
            Some(id)
        } else {
            assert(self.remaining() =~= Seq::<i32>::empty());
            None
        }
    }
}

/// The store has moved on from `before` to `after` in a phase, and the ids in
/// `done` are those that were completed meanwhile: the tables hold the same
/// records at the same places, and an id is still to do in `after` exactly
/// when it was to do in `before` and is not in `done`.
pub open spec fn spec_completed_since(
    before: Database,
    after: Database,
    phase: Phase,
    done: Set<i32>,
) -> bool {
    match phase {
        Phase::Bridge => {
            &&& after.bridge_states().len() == before.bridge_states().len()
            &&& forall|i: int|
                #![trigger after.bridge_states()[i]]
                0 <= i < before.bridge_states().len() ==> {
                    &&& after.bridge_states()[i].id == before.bridge_states()[i].id
                    &&& after.bridge_states()[i].funds_bridged
                        == (before.bridge_states()[i].funds_bridged
                        || done.contains(before.bridge_states()[i].id))
                }
        },
        Phase::Warmup => {
            &&& after.accounts().len() == before.accounts().len()
            &&& forall|i: int|
                #![trigger after.accounts()[i]]
                0 <= i < before.accounts().len() ==> {
                    &&& after.accounts()[i].id == before.accounts()[i].id
                    &&& after.accounts()[i].is_active == (before.accounts()[i].is_active
                        && !done.contains(before.accounts()[i].id))
                }
        },
    }
}

/// The pending ids of a batch after some ids were bridged are the pending
/// ids of before without those ids.
proof fn lemma_bridged_ids_leave_pending(
    before: Seq<BridgeStateModel>,
    after: Seq<BridgeStateModel>,
    batch: Seq<i32>,
    done: Set<i32>,
)
    requires
        after.len() == before.len(),
        forall|i: int|
            #![trigger after[i]]
            0 <= i < before.len() ==> after[i].id == before[i].id && after[i].funds_bridged == (
            before[i].funds_bridged || done.contains(before[i].id)),
    ensures
        spec_unbridged_ids_by_ids(after, batch) == spec_unbridged_ids_by_ids(before, batch).filter(
            |id: i32| !done.contains(id),
        ),
    decreases before.len(),
{
    reveal(Seq::filter);
    let keep = |s: BridgeStateModel| !s.funds_bridged && batch.contains(s.id);
    let id_of = |s: BridgeStateModel| s.id;
    let left = |id: i32| !done.contains(id);
    if before.len() == 0 {
        assert(spec_unbridged_ids_by_ids(after, batch) =~= Seq::<i32>::empty());
        assert(spec_unbridged_ids_by_ids(before, batch) =~= Seq::<i32>::empty());
    } else {
        let b0 = before.drop_last();
        let a0 = after.drop_last();
        let x = before.last();
        let y = after.last();
        assert forall|i: int| 0 <= i < b0.len() implies (#[trigger] a0[i]).id == b0[i].id
            && a0[i].funds_bridged == (b0[i].funds_bridged || done.contains(b0[i].id)) by {
            assert(a0[i] == after[i]);
        }
        lemma_bridged_ids_leave_pending(b0, a0, batch, done);
        assert(y == after[after.len() - 1]);
        assert(before =~= b0.push(x));
        assert(after =~= a0.push(y));
        broadcast use Seq::lemma_filter_push;
        let pb0 = b0.filter(keep).map_values(id_of);
        if keep(x) {
            assert(b0.filter(keep).push(x).map_values(id_of) =~= pb0.push(x.id));
        }
        if keep(y) {
            assert(a0.filter(keep).push(y).map_values(id_of) =~= a0.filter(keep).map_values(
                id_of,
            ).push(y.id));
        }
    }
}

/// The pending ids of a batch after some accounts were retired are the
/// pending ids of before without those accounts.
proof fn lemma_retired_ids_leave_pending(
    before: Seq<AccountModel>,
    after: Seq<AccountModel>,
    batch: Seq<i32>,
    done: Set<i32>,
)
    requires
        after.len() == before.len(),
        forall|i: int|
            #![trigger after[i]]
            0 <= i < before.len() ==> after[i].id == before[i].id && after[i].is_active == (
            before[i].is_active && !done.contains(before[i].id)),
    ensures
        spec_active_ids_by_ids(after, batch) == spec_active_ids_by_ids(before, batch).filter(
            |id: i32| !done.contains(id),
        ),
    decreases before.len(),
{
    reveal(Seq::filter);
    let keep = |a: AccountModel| a.is_active && batch.contains(a.id);
    let id_of = |a: AccountModel| a.id;
    if before.len() == 0 {
        assert(spec_active_ids_by_ids(after, batch) =~= Seq::<i32>::empty());
        assert(spec_active_ids_by_ids(before, batch) =~= Seq::<i32>::empty());
    } else {
        let b0 = before.drop_last();
        let a0 = after.drop_last();
        let x = before.last();
        let y = after.last();
        assert forall|i: int| 0 <= i < b0.len() implies (#[trigger] a0[i]).id == b0[i].id
            && a0[i].is_active == (b0[i].is_active && !done.contains(b0[i].id)) by {
            assert(a0[i] == after[i]);
        }
        lemma_retired_ids_leave_pending(b0, a0, batch, done);
        assert(y == after[after.len() - 1]);
        assert(before =~= b0.push(x));
        assert(after =~= a0.push(y));
        broadcast use Seq::lemma_filter_push;
        let pb0 = b0.filter(keep).map_values(id_of);
        if keep(x) {
            assert(b0.filter(keep).push(x).map_values(id_of) =~= pb0.push(x.id));
        }
        if keep(y) {
            assert(a0.filter(keep).push(y).map_values(id_of) =~= a0.filter(keep).map_values(
                id_of,
            ).push(y.id));
        }
    }
}

/// Idempotent resumption: when a worker ends, for whatever reason, after the
/// ids in `done` were completed, a new worker over the same batch finds
/// pending what was pending before without the ids in `done`. What a pass
/// takes is what the store names, so the new worker takes the rest and
/// nothing that was completed.
pub proof fn lemma_relaunch_skips_completed(
    before: Database,
    after: Database,
    phase: Phase,
    batch: Seq<i32>,
    done: Set<i32>,
)
    requires
        spec_completed_since(before, after, phase, done),
    ensures
        spec_pending_ids(after, phase, batch) == spec_pending_ids(before, phase, batch).filter(
            |id: i32| !done.contains(id),
        ),
        forall|id: i32|
            done.contains(id) ==> !(#[trigger] spec_pending_ids(after, phase, batch).contains(id)),
{
    match phase {
        Phase::Bridge => {
            lemma_bridged_ids_leave_pending(
                before.bridge_states(),
                after.bridge_states(),
                batch,
                done,
            );
        },
        Phase::Warmup => {
            lemma_retired_ids_leave_pending(before.accounts(), after.accounts(), batch, done);
        },
    }
    let left = |id: i32| !done.contains(id);
    let rest = spec_pending_ids(before, phase, batch).filter(left);
    assert forall|id: i32| done.contains(id) implies !(#[trigger] spec_pending_ids(
        after,
        phase,
        batch,
    ).contains(id)) by {
        if rest.contains(id) {
            spec_pending_ids(before, phase, batch).lemma_filter_contains_rev(left, id);
        }
    }
}

/// Only what is still to do is pending: an id that the store names as
/// pending in a phase belongs to the batch, and the store holds an account
/// with that id that is still active, in the warmup, or a bridge state with
/// that id whose funds are not bridged, in the bridge phase. So an account
/// that is inactive, or whose funds are bridged, is never handed to a worker.
pub proof fn lemma_pending_ids_are_to_do(db: Database, phase: Phase, batch: Seq<i32>, id: i32)
    requires
        spec_pending_ids(db, phase, batch).contains(id),
    ensures
        batch.contains(id),
        match phase {
            Phase::Bridge => exists|i: int|
                0 <= i < db.bridge_states().len() && (#[trigger] db.bridge_states()[i]).id == id
                    && !db.bridge_states()[i].funds_bridged,
            Phase::Warmup => exists|i: int|
                0 <= i < db.accounts().len() && (#[trigger] db.accounts()[i]).id == id
                    && db.accounts()[i].is_active,
        },
{
    match phase {
        Phase::Bridge => {
            let keep = |s: BridgeStateModel| !s.funds_bridged && batch.contains(s.id);
            let kept = db.bridge_states().filter(keep);
            let ids = spec_pending_ids(db, phase, batch);
            let at = choose|i: int| 0 <= i < ids.len() && ids[i] == id;
            assert(kept[at].id == id);
            db.bridge_states().lemma_filter_pred(keep, at);
            assert(kept.contains(kept[at]));
            db.bridge_states().lemma_filter_contains_rev(keep, kept[at]);
            let i = choose|i: int|
                0 <= i < db.bridge_states().len() && db.bridge_states()[i] == kept[at];
            assert(db.bridge_states()[i].id == id);
        },
        Phase::Warmup => {
            let keep = |a: AccountModel| a.is_active && batch.contains(a.id);
            let kept = db.accounts().filter(keep);
            let ids = spec_pending_ids(db, phase, batch);
            let at = choose|i: int| 0 <= i < ids.len() && ids[i] == id;
            assert(kept[at].id == id);
            db.accounts().lemma_filter_pred(keep, at);
            assert(kept.contains(kept[at]));
            db.accounts().lemma_filter_contains_rev(keep, kept[at]);
            let i = choose|i: int| 0 <= i < db.accounts().len() && db.accounts()[i] == kept[at];
            assert(db.accounts()[i].id == id);
        },
    }
}

/// In a list without repetitions, the items outside a finite set and the
/// items of the list inside it add up to the list.
proof fn lemma_filter_outside_len(items: Seq<i32>, done: Set<i32>)
    requires
        items.no_duplicates(),
        done.finite(),
    ensures
        items.filter(|id: i32| !done.contains(id)).len() + done.intersect(items.to_set()).len()
            == items.len(),
    decreases items.len(),
{
    reveal(Seq::filter);
    let left = |id: i32| !done.contains(id);
    if items.len() == 0 {
        assert(done.intersect(items.to_set()) =~= Set::<i32>::empty());
    } else {
        let rest = items.drop_last();
        let last = items.last();
        assert(items =~= rest.push(last));
        assert(rest.no_duplicates()) by {
            assert forall|i: int, j: int| 0 <= i < rest.len() && 0 <= j < rest.len() && i
                != j implies rest[i] != rest[j] by {
                assert(items[i] != items[j]);
            }
        }
        lemma_filter_outside_len(rest, done);
        assert(!rest.contains(last)) by {
            if rest.contains(last) {
                let i = choose|i: int| 0 <= i < rest.len() && rest[i] == last;
                assert(items[i] == items[items.len() - 1]);
            }
        }
        rest.lemma_push_to_set_commute(last);
        let inside = done.intersect(rest.to_set());
        vstd::set::axiom_set_intersect_finite(done, rest.to_set());
        broadcast use Seq::lemma_filter_push;
        if done.contains(last) {
            assert(done.intersect(items.to_set()) =~= inside.insert(last));
            vstd::set::axiom_set_insert_len(inside, last);
        } else {
            assert(done.intersect(items.to_set()) =~= inside);
        }
    }
}

/// The pending ids of a batch name no id twice, as no two records of a table
/// share an id.
proof fn lemma_pending_ids_are_distinct(db: Database, phase: Phase, batch: Seq<i32>)
    requires
        db.wf(),
    ensures
        spec_pending_ids(db, phase, batch).no_duplicates(),
{
    match phase {
        Phase::Bridge => {
            let keep = |s: BridgeStateModel| !s.funds_bridged && batch.contains(s.id);
            lemma_kept_states_are_distinct(db.bridge_states(), keep);
        },
        Phase::Warmup => {
            let keep = |a: AccountModel| a.is_active && batch.contains(a.id);
            lemma_kept_accounts_are_distinct(db.accounts(), keep);
        },
    }
}

/// The ids of the bridge states that a filter keeps are distinct and are ids
/// of the table.
proof fn lemma_kept_states_are_distinct(
    states: Seq<BridgeStateModel>,
    keep: spec_fn(BridgeStateModel) -> bool,
)
    requires
        forall|i: int, j: int|
            0 <= i < j < states.len() ==> (#[trigger] states[i]).id != (#[trigger] states[j]).id,
    ensures
        states.filter(keep).map_values(|s: BridgeStateModel| s.id).no_duplicates(),
        forall|k: int|
            0 <= k < states.filter(keep).len() ==> exists|i: int|
                0 <= i < states.len() && (#[trigger] states[i]).id == (#[trigger] states.filter(
                    keep,
                )[k]).id,
    decreases states.len(),
{
    reveal(Seq::filter);
    let id_of = |s: BridgeStateModel| s.id;
    if states.len() > 0 {
        let rest = states.drop_last();
        let last = states.last();
        assert(states =~= rest.push(last));
        assert forall|i: int, j: int| 0 <= i < j < rest.len() implies (#[trigger] rest[i]).id != (
        #[trigger] rest[j]).id by {
            assert(states[i].id != states[j].id);
        }
        lemma_kept_states_are_distinct(rest, keep);
        broadcast use Seq::lemma_filter_push;
        let kept = rest.filter(keep);
        assert forall|k: int| 0 <= k < states.filter(keep).len() implies exists|i: int|
            0 <= i < states.len() && (#[trigger] states[i]).id == (#[trigger] states.filter(
                keep,
            )[k]).id by {
            if k < kept.len() {
                let i = choose|i: int| 0 <= i < rest.len() && (#[trigger] rest[i]).id == kept[k].id;
                assert(states[i].id == kept[k].id);
            } else {
                assert(states[states.len() - 1].id == last.id);
            }
        }
        if keep(last) {
            let ids = kept.map_values(id_of);
            assert(states.filter(keep).map_values(id_of) =~= ids.push(last.id));
            assert forall|k: int| 0 <= k < ids.len() implies ids[k] != last.id by {
                let i = choose|i: int| 0 <= i < rest.len() && (#[trigger] rest[i]).id == kept[k].id;
                assert(states[i].id != states[states.len() - 1].id);
            }
        }
    }
}

/// The ids of the accounts that a filter keeps are distinct and are ids of
/// the table.
proof fn lemma_kept_accounts_are_distinct(
    accounts: Seq<AccountModel>,
    keep: spec_fn(AccountModel) -> bool,
)
    requires
        forall|i: int, j: int|
            0 <= i < j < accounts.len() ==> (#[trigger] accounts[i]).id < (
            #[trigger] accounts[j]).id,
    ensures
        accounts.filter(keep).map_values(|a: AccountModel| a.id).no_duplicates(),
        forall|k: int|
            0 <= k < accounts.filter(keep).len() ==> exists|i: int|
                0 <= i < accounts.len() && (#[trigger] accounts[i]).id == (
                #[trigger] accounts.filter(keep)[k]).id,
    decreases accounts.len(),
{
    reveal(Seq::filter);
    let id_of = |a: AccountModel| a.id;
    if accounts.len() > 0 {
        let rest = accounts.drop_last();
        let last = accounts.last();
        assert(accounts =~= rest.push(last));
        assert forall|i: int, j: int| 0 <= i < j < rest.len() implies (#[trigger] rest[i]).id < (
        #[trigger] rest[j]).id by {
            assert(accounts[i].id < accounts[j].id);
        }
        lemma_kept_accounts_are_distinct(rest, keep);
        broadcast use Seq::lemma_filter_push;
        let kept = rest.filter(keep);
        assert forall|k: int| 0 <= k < accounts.filter(keep).len() implies exists|i: int|
            0 <= i < accounts.len() && (#[trigger] accounts[i]).id == (#[trigger] accounts.filter(
                keep,
            )[k]).id by {
            if k < kept.len() {
                let i = choose|i: int| 0 <= i < rest.len() && (#[trigger] rest[i]).id == kept[k].id;
                assert(accounts[i].id == kept[k].id);
            } else {
                assert(accounts[accounts.len() - 1].id == last.id);
            }
        }
        if keep(last) {
            let ids = kept.map_values(id_of);
            assert(accounts.filter(keep).map_values(id_of) =~= ids.push(last.id));
            assert forall|k: int| 0 <= k < ids.len() implies ids[k] != last.id by {
                let i = choose|i: int| 0 <= i < rest.len() && (#[trigger] rest[i]).id == kept[k].id;
                assert(accounts[i].id < accounts[accounts.len() - 1].id);
            }
        }
    }
}

/// Idempotent resumption, counted: where `m` ids of a batch were pending and
/// `k` of them were completed before the worker ended, a new worker over the
/// same batch finds `m - k` ids pending.
pub proof fn lemma_relaunch_finds_the_rest(
    before: Database,
    after: Database,
    phase: Phase,
    batch: Seq<i32>,
    done: Set<i32>,
)
    requires
        before.wf(),
        spec_completed_since(before, after, phase, done),
        done.finite(),
        forall|id: i32| done.contains(id) ==> spec_pending_ids(before, phase, batch).contains(id),
    ensures
        spec_pending_ids(after, phase, batch).len() == spec_pending_ids(before, phase, batch).len()
            - done.len(),
{
    let pending = spec_pending_ids(before, phase, batch);
    lemma_relaunch_skips_completed(before, after, phase, batch, done);
    lemma_pending_ids_are_distinct(before, phase, batch);
    lemma_filter_outside_len(pending, done);
    assert(done.intersect(pending.to_set()) =~= done);
}

/// What completes an id is what the store records: once the funds of an
/// account count as bridged, or an account is taken out of the warmup, the
/// store has moved on by exactly that id, in the sense of
/// `spec_completed_since`. So the laws of resumption speak of what
/// `bridge_funds` and `execute_random_warmup_action` do.
pub proof fn lemma_completion_is_recorded(before: Database, after: Database, at: int, id: i32)
    requires
        before.wf(),
    ensures
        0 <= at < before.bridge_states().len() && before.bridge_states()[at].id == id
            && after.bridge_states() == before.bridge_states().update(
            at,
            (BridgeStateModel { id, funds_bridged: true }),
        ) ==> spec_completed_since(before, after, Phase::Bridge, set![id]),
        0 <= at < before.accounts().len() && before.accounts()[at].id == id && after.accounts()
            == before.accounts().update(
            at,
            (AccountModel { is_active: false, ..before.accounts()[at] }),
        ) ==> spec_completed_since(before, after, Phase::Warmup, set![id]),
{
    let done = set![id];
    if 0 <= at < before.bridge_states().len() && before.bridge_states()[at].id == id
        && after.bridge_states() == before.bridge_states().update(
        at,
        (BridgeStateModel { id, funds_bridged: true }),
    ) {
        assert forall|i: int| 0 <= i < before.bridge_states().len() implies {
            &&& (#[trigger] after.bridge_states()[i]).id == before.bridge_states()[i].id
            &&& after.bridge_states()[i].funds_bridged == (before.bridge_states()[i].funds_bridged
                || done.contains(before.bridge_states()[i].id))
        } by {
            if i < at {
                assert(before.bridge_states()[i].id != before.bridge_states()[at].id);
            } else if i > at {
                assert(before.bridge_states()[at].id != before.bridge_states()[i].id);
            }
        }
    }
    if 0 <= at < before.accounts().len() && before.accounts()[at].id == id && after.accounts()
        == before.accounts().update(
        at,
        (AccountModel { is_active: false, ..before.accounts()[at] }),
    ) {
        assert forall|i: int| 0 <= i < before.accounts().len() implies {
            &&& (#[trigger] after.accounts()[i]).id == before.accounts()[i].id
            &&& after.accounts()[i].is_active == (before.accounts()[i].is_active && !done.contains(
                before.accounts()[i].id,
            ))
        } by {
            if i < at {
                assert(before.accounts()[i].id < before.accounts()[at].id);
            } else if i > at {
                assert(before.accounts()[at].id < before.accounts()[i].id);
            }
        }
    }
}

} // verus!
