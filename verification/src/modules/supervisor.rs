//! The supervisor: it hands each batch to a worker and starts a new worker
//! over the same batch whenever one fails.

use crate::modules::batch::{batch_views, spec_batches, split_into_batches};
use vstd::prelude::*;

verus! {

/// The batches of a phase and which of them are done.
pub struct Supervisor {
    batches: Vec<Vec<i32>>,
    retired: Vec<bool>,
}

/// What the supervisor does when a worker has ended.
#[derive(Clone, Copy, Debug, PartialEq, Eq, Structural)]
pub enum Verdict {
    /// The worker succeeded: its batch is done.
    Retire,
    /// The worker failed: a new worker starts over the same batch.
    Relaunch,
}

impl Supervisor {
    /// The batches, as they were made when the phase began.
    pub closed spec fn batches(self) -> Seq<Seq<i32>> {
        batch_views(self.batches@)
    }

    /// For each batch, whether a worker has succeeded on it.
    pub closed spec fn retired(self) -> Seq<bool> {
        self.retired@
    }

    /// Every batch is done.
    pub open spec fn spec_is_complete(self) -> bool {
        forall|i: int| 0 <= i < self.retired().len() ==> self.retired()[i]
    }

    #[verifier::type_invariant]
    spec fn one_flag_per_batch(self) -> bool {
        self.retired@.len() == self.batches@.len()
    }

    /// Splits the pending ids into batches for `workers` workers. No batch
    /// is done yet; with no pending id there is no batch, and the phase is
    /// complete at once.
    pub fn launch(ids: &Vec<i32>, workers: usize) -> (supervisor: Supervisor)
        requires
            workers > 0,
        ensures
            supervisor.batches() == spec_batches(ids@, workers as nat),
            supervisor.retired().len() == supervisor.batches().len(),
            forall|i: int| 0 <= i < supervisor.retired().len() ==> !supervisor.retired()[i],
    {
        let batches = split_into_batches(ids, workers);
        let mut retired: Vec<bool> = Vec::new();
        let mut at: usize = 0;
        while at < batches.len()
            invariant
                at <= batches.len(),
                retired@.len() == at,
                forall|i: int| 0 <= i < at ==> !retired@[i],
            decreases batches.len() - at,
        {
            retired.push(false);
            at = at + 1;
        }
        Supervisor { batches, retired }
    }

    /// How many batches there are.
    pub fn batch_count(&self) -> (count: usize)
        ensures
            count == self.batches().len(),
            count == self.retired().len(),
    {
        proof {
            use_type_invariant(self);
        }
        self.batches.len()
    }

    /// The ids of a batch, for the worker that is to run over it.
    pub fn batch(&self, index: usize) -> (ids: &Vec<i32>)
        requires
            index < self.batches().len(),
        ensures
            ids@ == self.batches()[index as int],
    {
        &self.batches[index]
    }

    /// Takes note that the worker over batch `index` has ended, and says what
    /// follows.
    ///
    /// After a success the batch is done. After a failure a new worker is to
    /// start over the same batch: the batches are never made anew, and a
    /// batch that is done stays done.
    pub fn on_worker_finished(&mut self, index: usize, succeeded: bool) -> (verdict: Verdict)
        requires
            index < old(self).batches().len(),
        ensures
            final(self).batches() == old(self).batches(),
            final(self).retired() == old(self).retired().update(
                index as int,
                old(self).retired()[index as int] || succeeded,
            ),
            verdict == if succeeded {
                Verdict::Retire
            } else {
                Verdict::Relaunch
            },
    {
        proof {
            use_type_invariant(&*self);
        }
        if succeeded {
            let mut taken = Supervisor { batches: Vec::new(), retired: Vec::new() };
            core::mem::swap(self, &mut taken);
            let Supervisor { batches, mut retired } = taken;
            retired.set(index, true);
            *self = Supervisor { batches, retired };
            Verdict::Retire
        } else {
            assert(self.retired() =~= old(self).retired().update(
                index as int,
                old(self).retired()[index as int],
            ));
            Verdict::Relaunch
        }
    }

    /// Whether every batch is done, so that the phase is over.
    pub fn is_complete(&self) -> (complete: bool)
        ensures
            complete == self.spec_is_complete(),
    {
        let mut at: usize = 0;
        while at < self.retired.len()
            invariant
                at <= self.retired.len(),
                forall|i: int| 0 <= i < at ==> self.retired()[i],
            decreases self.retired.len() - at,
        {
            if !self.retired[at] {
                assert(!self.retired()[at as int]);
                return false;
            }
            at = at + 1;
        }
        true
    }
}

} // verus!
