//! Changes to the table of bridge states.

use crate::db::entities::{
    lemma_update_bridge_state_keeps_valid, spec_account_index, spec_bridge_state_index,
    BridgeStateModel, Database, StoreError,
};
use vstd::prelude::*;

verus! {

/// What adding a bridge state gives: the id, or why it is refused.
pub open spec fn spec_insert_bridge_state(db: Database, account_id: i32) -> Result<i32, StoreError> {
    if spec_bridge_state_index(db.bridge_states(), account_id as int) is Some {
        Err(StoreError::UniqueViolation)
    } else if spec_account_index(db.accounts(), account_id as int) is None {
        Err(StoreError::ForeignKeyViolation)
    } else {
        Ok(account_id)
    }
}

pub struct Mutation;

impl Mutation {
    /// Records that the funds of the account have been bridged, and hands out
    /// the new state.
    ///
    /// Fails with `RecordNotFound`, and changes nothing, where the account has
    /// no bridge state. Nothing ever sets the flag back.
    pub fn set_funds_bridged(account_id: i32, db: &mut Database) -> (res: Result<
        BridgeStateModel,
        StoreError,
    >)
        ensures
            final(db).accounts() == old(db).accounts(),
            final(db).goals() == old(db).goals(),
            match spec_bridge_state_index(old(db).bridge_states(), account_id as int) {
                None => res == Err::<BridgeStateModel, StoreError>(StoreError::RecordNotFound)
                    && final(db).bridge_states() == old(db).bridge_states(),
                Some(i) => {
                    let state = BridgeStateModel { id: account_id, funds_bridged: true };
                    res == Ok::<BridgeStateModel, StoreError>(state) && final(db).bridge_states()
                        == old(db).bridge_states().update(i, state)
                },
            },
    {
        proof {
            use_type_invariant(&*db);
        }
        let at = match db.bridge_state_index(account_id) {
            Some(at) => at,
            None => {
                return Err(StoreError::RecordNotFound);
            },
        };
        let state = BridgeStateModel { id: account_id, funds_bridged: true };
        proof {
            lemma_update_bridge_state_keeps_valid(
                db.accounts(),
                db.goals(),
                db.bridge_states(),
                at as int,
                state,
            );
        }
        db.set_bridge_state(at, state);
        Ok(state)
    }

    /// Gives the account a bridge state that says its funds are not bridged.
    ///
    /// The state is refused, and the store left as it was, where the account
    /// has one already (`UniqueViolation`) or does not exist
    /// (`ForeignKeyViolation`).
    pub fn create_account_bridge_state(account_id: i32, db: &mut Database) -> (res: Result<
        i32,
        StoreError,
    >)
        ensures
            res == spec_insert_bridge_state(*old(db), account_id),
            final(db).accounts() == old(db).accounts(),
            final(db).goals() == old(db).goals(),
            res is Err ==> final(db).bridge_states() == old(db).bridge_states(),
            res is Ok ==> final(db).bridge_states() == old(db).bridge_states().push(
                (BridgeStateModel { id: account_id, funds_bridged: false }),
            ),
    {
        proof {
            use_type_invariant(&*db);
        }
        if db.bridge_state_index(account_id).is_some() {
            return Err(StoreError::UniqueViolation);
        }
        if db.account_index(account_id).is_none() {
            return Err(StoreError::ForeignKeyViolation);
        }
        let state = BridgeStateModel { id: account_id, funds_bridged: false };
        proof {
            let after = db.bridge_states().push(state);
            assert forall|i: int| 0 <= i < after.len() implies spec_account_index(
                db.accounts(),
                (#[trigger] after[i]).id as int,
            ) is Some by {
                if i < db.bridge_states().len() {
                    assert(after[i] == db.bridge_states()[i]);
                }
            }
        }
        db.push_bridge_state(state);
        Ok(account_id)
    }
}

} // verus!
