//! Changes to the account table.

use crate::db::entities::{
    lemma_push_account_keeps_valid, lemma_update_account_keeps_valid, spec_account_index,
    AccountModel, Database, StoreError,
};
use crate::onchain::eclipse::common::keypair::{
    base58_decode, keypair_public_key, spec_base58_decode, spec_keypair_public_key,
};
use crate::onchain::eclipse::common::pubkey::spec_pubkey_text;
use vstd::prelude::*;

verus! {

/// The address that belongs to a private key of the Eclipse chain, or why the
/// key is refused: it is no base58 text, or what it decodes to is no key pair.
pub open spec fn spec_eclipse_address(private_key: Seq<char>) -> Result<Seq<char>, StoreError> {
    match spec_base58_decode(private_key) {
        None => Err(StoreError::InvalidBase58),
        Some(bytes) => match spec_keypair_public_key(bytes) {
            None => Err(StoreError::InvalidKeypair),
            Some(public) => Ok(spec_pubkey_text(public)),
        },
    }
}

/// One of the four values is already in use by an account.
pub open spec fn spec_key_taken(
    accounts: Seq<AccountModel>,
    evm_private_key: Seq<char>,
    evm_address: Seq<char>,
    eclipse_private_key: Seq<char>,
    eclipse_address: Seq<char>,
) -> bool {
    exists|i: int|
        0 <= i < accounts.len() && spec_shares_key(
            #[trigger] accounts[i],
            evm_private_key,
            evm_address,
            eclipse_private_key,
            eclipse_address,
        )
}

/// The account uses one of the four values.
pub open spec fn spec_shares_key(
    account: AccountModel,
    evm_private_key: Seq<char>,
    evm_address: Seq<char>,
    eclipse_private_key: Seq<char>,
    eclipse_address: Seq<char>,
) -> bool {
    ||| account.evm_private_key@ == evm_private_key
    ||| account.evm_address@ == evm_address
    ||| account.eclipse_private_key@ == eclipse_private_key
    ||| account.eclipse_address@ == eclipse_address
}

/// The id that the next account gets: one more than the newest account's.
pub open spec fn spec_next_account_id(accounts: Seq<AccountModel>) -> int {
    if accounts.len() == 0 {
        1
    } else {
        accounts.last().id + 1
    }
}

/// What creating an account gives: its id, or why it is refused.
pub open spec fn spec_create_account(
    accounts: Seq<AccountModel>,
    evm_private_key: Seq<char>,
    evm_address: Seq<char>,
    eclipse_private_key: Seq<char>,
) -> Result<int, StoreError> {
    match spec_eclipse_address(eclipse_private_key) {
        Err(e) => Err(e),
        Ok(eclipse_address) => if spec_key_taken(
            accounts,
            evm_private_key,
            evm_address,
            eclipse_private_key,
            eclipse_address,
        ) {
            Err(StoreError::UniqueViolation)
        } else if spec_next_account_id(accounts) > i32::MAX {
            Err(StoreError::Overflow)
        } else {
            Ok(spec_next_account_id(accounts))
        },
    }
}

/// The record of an account that was just created.
pub open spec fn spec_is_fresh_account(
    account: AccountModel,
    id: int,
    evm_private_key: Seq<char>,
    evm_address: Seq<char>,
    eclipse_private_key: Seq<char>,
    proxy: Option<String>,
) -> bool {
    &&& account.id == id
    &&& account.is_active
    &&& account.evm_private_key@ == evm_private_key
    &&& account.evm_address@ == evm_address
    &&& account.eclipse_private_key@ == eclipse_private_key
    &&& spec_eclipse_address(eclipse_private_key) == Ok::<Seq<char>, StoreError>(
        account.eclipse_address@,
    )
    &&& account.proxy == proxy
    &&& account.swap_count == 0
    &&& account.create_count == 0
}

/// The account after one more swap.
pub open spec fn spec_swap_counted(account: AccountModel) -> AccountModel {
    AccountModel { swap_count: (account.swap_count + 1) as i32, ..account }
}

/// The account after one more mint.
pub open spec fn spec_create_counted(account: AccountModel) -> AccountModel {
    AccountModel { create_count: (account.create_count + 1) as i32, ..account }
}

/// The account once it has left the warmup.
pub open spec fn spec_retired(account: AccountModel) -> AccountModel {
    AccountModel { is_active: false, ..account }
}

/// Derives the address of a private key of the Eclipse chain.
pub fn eclipse_address(private_key: &str) -> (res: Result<String, StoreError>)
    ensures
        match res {
            Ok(address) => spec_eclipse_address(private_key@) == Ok::<Seq<char>, StoreError>(
                address@,
            ),
            Err(e) => spec_eclipse_address(private_key@) == Err::<Seq<char>, StoreError>(e),
        },
{
    match base58_decode(private_key) {
        None => Err(StoreError::InvalidBase58),
        Some(bytes) => match keypair_public_key(bytes.as_slice()) {
            None => Err(StoreError::InvalidKeypair),
            Some(public) => Ok(public.to_text()),
        },
    }
}

pub struct Mutation;

impl Mutation {
    /// Adds an account with its two key pairs and an optional proxy.
    ///
    /// The account starts active, with both counters at zero, and gets the
    /// next id. It is refused, and the store left as it was, where the
    /// Eclipse key is not a key pair in base58 or where one of the keys or
    /// addresses is already in use.
    pub fn create_account(
        evm_private_key: &str,
        evm_address: &str,
        eclipse_private_key: &str,
        proxy: Option<String>,
        db: &mut Database,
    ) -> (res: Result<i32, StoreError>)
        ensures
            final(db).goals() == old(db).goals(),
            final(db).bridge_states() == old(db).bridge_states(),
            match spec_create_account(
                old(db).accounts(),
                evm_private_key@,
                evm_address@,
                eclipse_private_key@,
            ) {
                Err(e) => res == Err::<i32, StoreError>(e) && final(db).accounts()
                    == old(db).accounts(),
                Ok(id) => {
                    &&& res == Ok::<i32, StoreError>(id as i32)
                    &&& final(db).accounts().len() == old(db).accounts().len() + 1
                    &&& final(db).accounts().drop_last() == old(db).accounts()
                    &&& spec_is_fresh_account(
                        final(db).accounts().last(),
                        id,
                        evm_private_key@,
                        evm_address@,
                        eclipse_private_key@,
                        proxy,
                    )
                },
            },
    {
        proof {
            use_type_invariant(&*db);
        }
        let eclipse_address = match eclipse_address(eclipse_private_key) {
            Ok(address) => address,
            Err(e) => {
                return Err(e);
            },
        };
        let evm_key = evm_private_key.to_owned();
        let evm_text = evm_address.to_owned();
        let eclipse_key = eclipse_private_key.to_owned();
        let mut at: usize = 0;
        while at < db.accounts.len()
            invariant
                at <= db.accounts.len(),
                *db == *old(db),
                evm_key@ == evm_private_key@,
                evm_text@ == evm_address@,
                eclipse_key@ == eclipse_private_key@,
                spec_eclipse_address(eclipse_private_key@) == Ok::<Seq<char>, StoreError>(
                    eclipse_address@,
                ),
                forall|i: int|
                    0 <= i < at ==> !spec_shares_key(
                        #[trigger] db.accounts()[i],
                        evm_private_key@,
                        evm_address@,
                        eclipse_private_key@,
                        eclipse_address@,
                    ),
            decreases db.accounts.len() - at,
        {
            let account = &db.accounts[at];
            if account.evm_private_key == evm_key || account.evm_address == evm_text
                || account.eclipse_private_key == eclipse_key || account.eclipse_address
                == eclipse_address {
                assert(spec_shares_key(
                    db.accounts()[at as int],
                    evm_private_key@,
                    evm_address@,
                    eclipse_private_key@,
                    eclipse_address@,
                ));
                return Err(StoreError::UniqueViolation);
            }
            at = at + 1;
        }
        let count = db.accounts.len();
        let id: i32 = if count == 0 {
            1
        } else {
            let newest = db.accounts[count - 1].id;
            if newest == i32::MAX {
                return Err(StoreError::Overflow);
            }
            newest + 1
        };
        let account = AccountModel {
            id,
            is_active: true,
            evm_private_key: evm_key,
            evm_address: evm_text,
            eclipse_private_key: eclipse_key,
            eclipse_address,
            proxy,
            swap_count: 0,
            create_count: 0,
        };
        proof {
            assert forall|i: int| 0 <= i < db.accounts().len() implies (
            #[trigger] db.accounts()[i]).id < id by {
                if i < count - 1 {
                    assert(db.accounts()[i].id < db.accounts()[count - 1].id);
                }
            }
            lemma_push_account_keeps_valid(db.accounts(), db.goals(), db.bridge_states(), account);
        }
        db.push_account(account);
        assert(db.accounts().drop_last() =~= old(db).accounts());
        Ok(id)
    }

    /// Counts one more swap for the account and hands out the new record.
    ///
    /// Fails with `RecordNotFound` where no account has this id, and with
    /// `Overflow` where the counter cannot grow; the store is then unchanged.
    pub fn increase_swap_count(account_id: i32, db: &mut Database) -> (res: Result<
        AccountModel,
        StoreError,
    >)
        ensures
            final(db).goals() == old(db).goals(),
            final(db).bridge_states() == old(db).bridge_states(),
            match spec_account_index(old(db).accounts(), account_id as int) {
                None => res == Err::<AccountModel, StoreError>(StoreError::RecordNotFound)
                    && final(db).accounts() == old(db).accounts(),
                Some(i) => if old(db).accounts()[i].swap_count == i32::MAX {
                    res == Err::<AccountModel, StoreError>(StoreError::Overflow)
                        && final(db).accounts() == old(db).accounts()
                } else {
                    res == Ok::<AccountModel, StoreError>(
                        spec_swap_counted(old(db).accounts()[i]),
                    ) && final(db).accounts() == old(db).accounts().update(
                        i,
                        spec_swap_counted(old(db).accounts()[i]),
                    )
                },
            },
    {
        proof {
            use_type_invariant(&*db);
        }
        let at = match db.account_index(account_id) {
            Some(at) => at,
            None => {
                return Err(StoreError::RecordNotFound);
            },
        };
        let mut account = db.accounts[at].clone_model();
        if account.swap_count == i32::MAX {
            return Err(StoreError::Overflow);
        }
        account.swap_count = account.swap_count + 1;
        let updated = account.clone_model();
        proof {
            lemma_update_account_keeps_valid(
                db.accounts(),
                db.goals(),
                db.bridge_states(),
                at as int,
                account,
            );
        }
        db.set_account(at, account);
        Ok(updated)
    }

    /// Counts one more mint for the account and hands out the new record.
    ///
    /// Fails with `RecordNotFound` where no account has this id, and with
    /// `Overflow` where the counter cannot grow; the store is then unchanged.
    pub fn increase_create_count(account_id: i32, db: &mut Database) -> (res: Result<
        AccountModel,
        StoreError,
    >)
        ensures
            final(db).goals() == old(db).goals(),
            final(db).bridge_states() == old(db).bridge_states(),
            match spec_account_index(old(db).accounts(), account_id as int) {
                None => res == Err::<AccountModel, StoreError>(StoreError::RecordNotFound)
                    && final(db).accounts() == old(db).accounts(),
                Some(i) => if old(db).accounts()[i].create_count == i32::MAX {
                    res == Err::<AccountModel, StoreError>(StoreError::Overflow)
                        && final(db).accounts() == old(db).accounts()
                } else {
                    res == Ok::<AccountModel, StoreError>(
                        spec_create_counted(old(db).accounts()[i]),
                    ) && final(db).accounts() == old(db).accounts().update(
                        i,
                        spec_create_counted(old(db).accounts()[i]),
                    )
                },
            },
    {
        proof {
            use_type_invariant(&*db);
        }
        let at = match db.account_index(account_id) {
            Some(at) => at,
            None => {
                return Err(StoreError::RecordNotFound);
            },
        };
        let mut account = db.accounts[at].clone_model();
        if account.create_count == i32::MAX {
            return Err(StoreError::Overflow);
        }
        account.create_count = account.create_count + 1;
        let updated = account.clone_model();
        proof {
            lemma_update_account_keeps_valid(
                db.accounts(),
                db.goals(),
                db.bridge_states(),
                at as int,
                account,
            );
        }
        db.set_account(at, account);
        Ok(updated)
    }

    /// Takes the account out of the warmup and hands out the new record.
    ///
    /// Fails with `RecordNotFound`, and changes nothing, where no account has
    /// this id. No operation of the store makes the account active again.
    pub fn mark_as_inactive(account_id: i32, db: &mut Database) -> (res: Result<
        AccountModel,
        StoreError,
    >)
        ensures
            final(db).goals() == old(db).goals(),
            final(db).bridge_states() == old(db).bridge_states(),
            match spec_account_index(old(db).accounts(), account_id as int) {
                None => res == Err::<AccountModel, StoreError>(StoreError::RecordNotFound)
                    && final(db).accounts() == old(db).accounts(),
                Some(i) => res == Ok::<AccountModel, StoreError>(
                    spec_retired(old(db).accounts()[i]),
                ) && final(db).accounts() == old(db).accounts().update(
                    i,
                    spec_retired(old(db).accounts()[i]),
                ),
            },
    {
        proof {
            use_type_invariant(&*db);
        }
        let at = match db.account_index(account_id) {
            Some(at) => at,
            None => {
                return Err(StoreError::RecordNotFound);
            },
        };
        let mut account = db.accounts[at].clone_model();
        account.is_active = false;
        let updated = account.clone_model();
        proof {
            lemma_update_account_keeps_valid(
                db.accounts(),
                db.goals(),
                db.bridge_states(),
                at as int,
                account,
            );
        }
        db.set_account(at, account);
        Ok(updated)
    }
}

} // verus!
