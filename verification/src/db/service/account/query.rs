//! Lookups in the account table.

use crate::db::entities::{spec_account_index, AccountModel, Database, StoreError};
use vstd::prelude::*;

verus! {

/// The accounts that still take part in the warmup, oldest first.
pub open spec fn spec_active_accounts(accounts: Seq<AccountModel>) -> Seq<AccountModel> {
    accounts.filter(|a: AccountModel| a.is_active)
}

/// The ids of the accounts that still take part in the warmup and are named
/// in `ids`, in the order of the table.
pub open spec fn spec_active_ids_by_ids(accounts: Seq<AccountModel>, ids: Seq<i32>) -> Seq<i32> {
    accounts.filter(|a: AccountModel| a.is_active && ids.contains(a.id)).map_values(
        |a: AccountModel| a.id,
    )
}

/// Whether `id` is one of `ids`.
pub fn contains_id(ids: &[i32], id: i32) -> (found: bool)
    ensures
        found == ids@.contains(id),
{
    let mut at: usize = 0;
    while at < ids.len()
        invariant
            at <= ids.len(),
            forall|i: int| 0 <= i < at ==> ids@[i] != id,
        decreases ids.len() - at,
    {
        if ids[at] == id {
            return true;
        }
        at = at + 1;
    }
    false
}

pub struct Query;

impl Query {
    /// The account with this id; `RecordNotFound` if the table holds none.
    pub fn find_account_by_id(account_id: i32, db: &Database) -> (res: Result<
        AccountModel,
        StoreError,
    >)
        ensures
            match spec_account_index(db.accounts(), account_id as int) {
                Some(i) => res == Ok::<AccountModel, StoreError>(db.accounts()[i]),
                None => res == Err::<AccountModel, StoreError>(StoreError::RecordNotFound),
            },
    {
        match db.account_index(account_id) {
            Some(i) => Ok(db.accounts[i].clone_model()),
            None => Err(StoreError::RecordNotFound),
        }
    }

    /// All accounts that still take part in the warmup; `RecordNotFound` if
    /// there is none.
    pub fn get_active_accounts(db: &Database) -> (res: Result<Vec<AccountModel>, StoreError>)
        ensures
            spec_active_accounts(db.accounts()).len() == 0 ==> res == Err::<
                Vec<AccountModel>,
                StoreError,
            >(StoreError::RecordNotFound),
            spec_active_accounts(db.accounts()).len() > 0 ==> res is Ok && res.unwrap()@
                == spec_active_accounts(db.accounts()),
    {
        let mut found: Vec<AccountModel> = Vec::new();
        let mut at: usize = 0;
        proof {
            reveal(Seq::filter);
            assert(db.accounts().take(0) =~= Seq::<AccountModel>::empty());
        }
        while at < db.accounts.len()
            invariant
                at <= db.accounts.len(),
                found@ == spec_active_accounts(db.accounts().take(at as int)),
            decreases db.accounts.len() - at,
        {
            let account = &db.accounts[at];
            proof {
                assert(db.accounts().take(at + 1) =~= db.accounts().take(at as int).push(*account));
                broadcast use Seq::lemma_filter_push;
            }
            if account.is_active {
                found.push(account.clone_model());
            }
            at = at + 1;
        }
        proof {
            assert(db.accounts().take(at as int) =~= db.accounts());
        }
        if found.is_empty() {
            Err(StoreError::RecordNotFound)
        } else {
            Ok(found)
        }
    }

    /// The ids among `ids` whose accounts still take part in the warmup, in
    /// the order of the table; `RecordNotFound` if there is none.
    pub fn get_active_accounts_ids_by_ids(ids: &[i32], db: &Database) -> (res: Result<
        Vec<i32>,
        StoreError,
    >)
        ensures
            spec_active_ids_by_ids(db.accounts(), ids@).len() == 0 ==> res == Err::<
                Vec<i32>,
                StoreError,
            >(StoreError::RecordNotFound),
            spec_active_ids_by_ids(db.accounts(), ids@).len() > 0 ==> res is Ok && res.unwrap()@
                == spec_active_ids_by_ids(db.accounts(), ids@),
    {
        let mut found: Vec<i32> = Vec::new();
        let mut at: usize = 0;
        proof {
            reveal(Seq::filter);
            assert(db.accounts().take(0) =~= Seq::<AccountModel>::empty());
            assert(spec_active_ids_by_ids(db.accounts().take(0), ids@) =~= Seq::<i32>::empty());
        }
        while at < db.accounts.len()
            invariant
                at <= db.accounts.len(),
                found@ == spec_active_ids_by_ids(db.accounts().take(at as int), ids@),
            decreases db.accounts.len() - at,
        {
            let account = &db.accounts[at];
            let wanted = account.is_active && contains_id(ids, account.id);
            proof {
                let before = db.accounts().take(at as int);
                assert(db.accounts().take(at + 1) =~= before.push(*account));
                broadcast use Seq::lemma_filter_push;
                let keep = |a: AccountModel| a.is_active && ids@.contains(a.id);
                let id_of = |a: AccountModel| a.id;
                if wanted {
                    assert(before.filter(keep).push(*account).map_values(id_of) =~= before.filter(
                        keep,
                    ).map_values(id_of).push(account.id));
                }
            }
            if wanted {
                found.push(account.id);
            }
            at = at + 1;
        }
        proof {
            assert(db.accounts().take(at as int) =~= db.accounts());
        }
        if found.is_empty() {
            Err(StoreError::RecordNotFound)
        } else {
            Ok(found)
        }
    }
}

} // verus!
