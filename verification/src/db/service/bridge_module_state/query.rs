//! Lookups in the table of bridge states.

use crate::db::entities::{spec_bridge_state_index, BridgeStateModel, Database, StoreError};
use crate::db::service::account::query::contains_id;
use vstd::prelude::*;

verus! {

/// The states of the accounts whose funds have not been bridged, oldest first.
pub open spec fn spec_unbridged_states(states: Seq<BridgeStateModel>) -> Seq<BridgeStateModel> {
    states.filter(|s: BridgeStateModel| !s.funds_bridged)
}

/// The ids among `ids` whose funds have not been bridged, in the order of
/// the table.
pub open spec fn spec_unbridged_ids_by_ids(states: Seq<BridgeStateModel>, ids: Seq<i32>) -> Seq<
    i32,
> {
    states.filter(|s: BridgeStateModel| !s.funds_bridged && ids.contains(s.id)).map_values(
        |s: BridgeStateModel| s.id,
    )
}

pub struct Query;

impl Query {
    /// The states of all accounts whose funds have not been bridged;
    /// `RecordNotFound` if there is none.
    pub fn get_accounts_with_unbridged_state(db: &Database) -> (res: Result<
        Vec<BridgeStateModel>,
        StoreError,
    >)
        ensures
            spec_unbridged_states(db.bridge_states()).len() == 0 ==> res == Err::<
                Vec<BridgeStateModel>,
                StoreError,
            >(StoreError::RecordNotFound),
            spec_unbridged_states(db.bridge_states()).len() > 0 ==> res is Ok && res.unwrap()@
                == spec_unbridged_states(db.bridge_states()),
    {
        let mut found: Vec<BridgeStateModel> = Vec::new();
        let mut at: usize = 0;
        proof {
            reveal(Seq::filter);
            assert(db.bridge_states().take(0) =~= Seq::<BridgeStateModel>::empty());
        }
        while at < db.bridge_states.len()
            invariant
                at <= db.bridge_states.len(),
                found@ == spec_unbridged_states(db.bridge_states().take(at as int)),
            decreases db.bridge_states.len() - at,
        {
            let state = db.bridge_states[at];
            proof {
                assert(db.bridge_states().take(at + 1) =~= db.bridge_states().take(at as int).push(
                    state,
                ));
                broadcast use Seq::lemma_filter_push;
            }
            if !state.funds_bridged {
                found.push(state);
            }
            at = at + 1;
        }
        proof {
            assert(db.bridge_states().take(at as int) =~= db.bridge_states());
        }
        if found.is_empty() {
            Err(StoreError::RecordNotFound)
        } else {
            Ok(found)
        }
    }

    /// The ids among `ids` whose funds have not been bridged, in the order of
    /// the table; `RecordNotFound` if there is none.
    pub fn get_unbridged_state_ids_by_ids(ids: &[i32], db: &Database) -> (res: Result<
        Vec<i32>,
        StoreError,
    >)
        ensures
            spec_unbridged_ids_by_ids(db.bridge_states(), ids@).len() == 0 ==> res == Err::<
                Vec<i32>,
                StoreError,
            >(StoreError::RecordNotFound),
            spec_unbridged_ids_by_ids(db.bridge_states(), ids@).len() > 0 ==> res is Ok
                && res.unwrap()@ == spec_unbridged_ids_by_ids(db.bridge_states(), ids@),
    {
        let mut found: Vec<i32> = Vec::new();
        let mut at: usize = 0;
        proof {
            reveal(Seq::filter);
            assert(db.bridge_states().take(0) =~= Seq::<BridgeStateModel>::empty());
            assert(spec_unbridged_ids_by_ids(db.bridge_states().take(0), ids@) =~= Seq::<
                i32,
            >::empty());
        }
        while at < db.bridge_states.len()
            invariant
                at <= db.bridge_states.len(),
                found@ == spec_unbridged_ids_by_ids(db.bridge_states().take(at as int), ids@),
            decreases db.bridge_states.len() - at,
        {
            let state = db.bridge_states[at];
            let wanted = !state.funds_bridged && contains_id(ids, state.id);
            proof {
                let before = db.bridge_states().take(at as int);
                assert(db.bridge_states().take(at + 1) =~= before.push(state));
                broadcast use Seq::lemma_filter_push;
                let keep = |s: BridgeStateModel| !s.funds_bridged && ids@.contains(s.id);
                let id_of = |s: BridgeStateModel| s.id;
                if wanted {
                    assert(before.filter(keep).push(state).map_values(id_of) =~= before.filter(
                        keep,
                    ).map_values(id_of).push(state.id));
                }
            }
            if wanted {
                found.push(state.id);
            }
            at = at + 1;
        }
        proof {
            assert(db.bridge_states().take(at as int) =~= db.bridge_states());
        }
        if found.is_empty() {
            Err(StoreError::RecordNotFound)
        } else {
            Ok(found)
        }
    }

    /// The bridge state of the account with this id, if the table holds one.
    pub fn get_account_bridge_state_by_id(account_id: i32, db: &Database) -> (res: Option<
        BridgeStateModel,
    >)
        ensures
            match spec_bridge_state_index(db.bridge_states(), account_id as int) {
                Some(i) => res == Some(db.bridge_states()[i]),
                None => res is None,
            },
    {
        match db.bridge_state_index(account_id) {
            Some(i) => Some(db.bridge_states[i]),
            None => None,
        }
    }
}

} // verus!
