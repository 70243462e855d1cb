//! Taking new accounts into the store, each with a goal and a bridge state.

use crate::config::Config;
use crate::db::entities::{
    spec_account_index, spec_bridge_state_index, spec_goal_index, AccountGoalModel, AccountModel,
    BridgeStateModel, Database, StoreError,
};
use crate::db::service::account::mutation::{
    spec_create_account, spec_is_fresh_account, Mutation as AccountMutation,
};
use crate::db::service::account_goal::mutation::{spec_goal, Mutation as AccountGoalMutation};
use crate::db::service::bridge_module_state::mutation::Mutation as BridgeModuleStateMutation;
use crate::utils::misc::{spec_range_high, spec_range_low};
use vstd::prelude::*;

verus! {

/// A private key of the EVM chain with the address that belongs to it, or
/// without one where the text is not a key.
#[derive(Debug)]
pub struct EvmKey {
    pub private_key: String,
    pub address: Option<String>,
}

/// What became of one entry of the key lists.
#[derive(Clone, Copy, Debug, PartialEq, Eq, Structural)]
pub enum Ingested {
    /// An account was created under this id, with its goal and bridge state.
    Created(i32),
    /// The entry was passed over for this reason, and the store left as it was.
    Skipped(StoreError),
    /// The text of the EVM key is not a key; the store was left as it was.
    InvalidEvmKey,
}

/// What a run over the key lists did.
#[derive(Debug)]
pub struct IngestReport {
    /// What became of each entry, in the order of the lists.
    pub outcomes: Vec<Ingested>,
    /// How many proxies were left over.
    pub unused_proxies: usize,
}

/// How many of the first `count` entries led to an account.
pub open spec fn spec_created_before(outcomes: Seq<Ingested>, count: int) -> int
    decreases count,
{
    if count <= 0 {
        0
    } else {
        spec_created_before(outcomes, count - 1) + if outcomes[count - 1] is Created {
            1int
        } else {
            0int
        }
    }
}

/// The proxy of the entry at position `k`: proxies go to the entries in
/// order, whether an entry leads to an account or not.
pub open spec fn spec_proxy_for(proxies: Seq<String>, k: int) -> Option<String> {
    if 0 <= k < proxies.len() {
        Some(proxies[k])
    } else {
        None
    }
}

/// The entry at position `k` was dealt with as the store stood when its turn
/// came: the accounts of `before` and those that earlier entries led to.
pub open spec fn spec_entry_ingested(
    before: Database,
    after: Database,
    config: Config,
    evm_keys: Seq<EvmKey>,
    eclipse_keys: Seq<String>,
    proxies: Seq<String>,
    outcomes: Seq<Ingested>,
    k: int,
) -> bool {
    let earlier = spec_created_before(outcomes, k);
    let seen = after.accounts().take(before.accounts().len() + earlier);
    match evm_keys[k].address {
        None => outcomes[k] == Ingested::InvalidEvmKey,
        Some(address) => match spec_create_account(
            seen,
            evm_keys[k].private_key@,
            address@,
            eclipse_keys[k]@,
        ) {
            Err(e) => outcomes[k] == Ingested::Skipped(e),
            Ok(id) => {
                &&& outcomes[k] == Ingested::Created(id as i32)
                &&& spec_is_fresh_account(
                    after.accounts()[before.accounts().len() + earlier],
                    id,
                    evm_keys[k].private_key@,
                    address@,
                    eclipse_keys[k]@,
                    spec_proxy_for(proxies, k),
                )
                &&& after.goals()[before.goals().len() + earlier].id == id
                &&& spec_goal_drawn(after.goals()[before.goals().len()
                    + earlier], id as i32, config)
                &&& after.bridge_states()[before.bridge_states().len() + earlier] == (
                BridgeStateModel { id: id as i32, funds_bridged: false })
            },
        },
    }
}

/// The store has grown from `before` to `after` by one account, one goal and
/// one bridge state for each entry that led to an account, and by nothing else.
pub open spec fn spec_grown_by(before: Database, after: Database, created: int) -> bool {
    &&& after.accounts().len() == before.accounts().len() + created
    &&& after.goals().len() == before.goals().len() + created
    &&& after.bridge_states().len() == before.bridge_states().len() + created
    &&& after.accounts().take(before.accounts().len() as int) == before.accounts()
    &&& after.goals().take(before.goals().len() as int) == before.goals()
    &&& after.bridge_states().take(before.bridge_states().len() as int) == before.bridge_states()
}

/// Every account has a goal and a bridge state. As the ids of goals and of
/// bridge states are unique, it has exactly one of each.
pub open spec fn spec_complete(db: Database) -> bool {
    forall|i: int|
        #![trigger db.accounts()[i]]
        0 <= i < db.accounts().len() ==> {
            &&& spec_goal_index(db.goals(), db.accounts()[i].id as int) is Some
            &&& spec_bridge_state_index(db.bridge_states(), db.accounts()[i].id as int) is Some
        }
}

/// Two stores hold the same records.
pub open spec fn spec_same_tables(a: Database, b: Database) -> bool {
    &&& a.accounts() == b.accounts()
    &&& a.goals() == b.goals()
    &&& a.bridge_states() == b.bridge_states()
}

/// The goal has the id and lies within the configured ranges.
pub open spec fn spec_goal_drawn(goal: AccountGoalModel, id: i32, config: Config) -> bool {
    exists|swap_target: u32, create_target: u32|
        {
            &&& spec_range_low(config.lifinity.swaps_count_range) <= swap_target <= spec_range_high(
                config.lifinity.swaps_count_range,
            )
            &&& spec_range_low(config.underdog.create_count_range) <= create_target
                <= spec_range_high(config.underdog.create_count_range)
            &&& goal == #[trigger] spec_goal(id, swap_target, create_target)
        }
}

/// Takes one entry of the key lists into the store.
///
/// Where the account can be created it gets the next id, a goal drawn from
/// the configured ranges and a bridge state that says its funds are not
/// bridged. Where it cannot, the entry is passed over with the reason, and
/// the store stays as it is.
pub fn ingest_entry(
    config: &Config,
    evm_key: &EvmKey,
    eclipse_private_key: &str,
    proxy: Option<String>,
    db: &mut Database,
) -> (res: Ingested)
    ensures
        match evm_key.address {
            None => res == Ingested::InvalidEvmKey && spec_same_tables(*final(db), *old(db)),
            Some(address) => match spec_create_account(
                old(db).accounts(),
                evm_key.private_key@,
                address@,
                eclipse_private_key@,
            ) {
                Err(e) => res == Ingested::Skipped(e) && spec_same_tables(*final(db), *old(db)),
                Ok(id) => {
                    &&& res == Ingested::Created(id as i32)
                    &&& final(db).accounts().len() == old(db).accounts().len() + 1
                    &&& final(db).accounts().drop_last() == old(db).accounts()
                    &&& spec_is_fresh_account(
                        final(db).accounts().last(),
                        id,
                        evm_key.private_key@,
                        address@,
                        eclipse_private_key@,
                        proxy,
                    )
                    &&& final(db).goals().len() == old(db).goals().len() + 1
                    &&& final(db).goals().drop_last() == old(db).goals()
                    &&& spec_goal_drawn(final(db).goals().last(), id as i32, *config)
                    &&& final(db).bridge_states() == old(db).bridge_states().push(
                        (BridgeStateModel { id: id as i32, funds_bridged: false }),
                    )
                },
            },
        },
{
    proof {
        use_type_invariant(&*db);
    }
    let address = match &evm_key.address {
        Some(address) => address,
        None => {
            return Ingested::InvalidEvmKey;
        },
    };
    let created = AccountMutation::create_account(
        evm_key.private_key.as_str(),
        address.as_str(),
        eclipse_private_key,
        proxy,
        db,
    );
    let id = match created {
        Ok(id) => id,
        Err(e) => {
            return Ingested::Skipped(e);
        },
    };
    proof {
        // The id is new, so neither a goal nor a bridge state bears it.
        let accounts = old(db).accounts();
        assert(db.accounts().last().id == id);
        assert forall|i: int| 0 <= i < accounts.len() implies (#[trigger] accounts[i]).id != id by {
            assert(accounts[i] == db.accounts().drop_last()[i]);
            assert(db.accounts()[i].id < db.accounts()[db.accounts().len() - 1].id);
        }
        assert(spec_account_index(accounts, id as int) is None);
        if spec_goal_index(old(db).goals(), id as int) is Some {
            let g = spec_goal_index(old(db).goals(), id as int).unwrap();
            assert(spec_account_index(accounts, old(db).goals()[g].id as int) is Some);
        }
        if spec_bridge_state_index(old(db).bridge_states(), id as int) is Some {
            let b = spec_bridge_state_index(old(db).bridge_states(), id as int).unwrap();
            assert(spec_account_index(accounts, old(db).bridge_states()[b].id as int) is Some);
        }
        assert(db.accounts()[db.accounts().len() - 1].id == id);
        assert(spec_account_index(db.accounts(), id as int) is Some);
    }
    let goal = AccountGoalMutation::create_account_goal(config, id, db);
    assert(goal is Ok);
    let state = BridgeModuleStateMutation::create_account_bridge_state(id, db);
    assert(state is Ok);
    proof {
        assert(db.goals().drop_last() =~= old(db).goals());
    }
    Ingested::Created(id)
}

/// Takes the entries of the key lists into the store, in order.
///
/// The entry at position `k` is the `k`-th EVM key, the `k`-th Eclipse key
/// and the `k`-th proxy, where there is one. Each entry is dealt with as
/// `ingest_entry` says, against the store as the entries before it left it;
/// an entry that is passed over does not stop the run. The records that the
/// store held before stay as they are, and a store in which every account
/// had its goal and its bridge state is such a store afterwards.
pub fn generate_db(
    config: &Config,
    evm_keys: &Vec<EvmKey>,
    eclipse_keys: &Vec<String>,
    proxies: &Vec<String>,
    db: &mut Database,
) -> (report: IngestReport)
    requires
        evm_keys@.len() == eclipse_keys@.len(),
    ensures
        report.outcomes@.len() == evm_keys@.len(),
        report.unused_proxies == if proxies@.len() > evm_keys@.len() {
            proxies@.len() - evm_keys@.len()
        } else {
            0
        },
        spec_grown_by(
            *old(db),
            *final(db),
            spec_created_before(report.outcomes@, evm_keys@.len() as int),
        ),
        forall|k: int|
            0 <= k < evm_keys@.len() ==> #[trigger] spec_entry_ingested(
                *old(db),
                *final(db),
                *config,
                evm_keys@,
                eclipse_keys@,
                proxies@,
                report.outcomes@,
                k,
            ),
        spec_complete(*old(db)) ==> spec_complete(*final(db)),
{
    let mut outcomes: Vec<Ingested> = Vec::new();
    let mut at: usize = 0;
    proof {
        assert(db.accounts().take(db.accounts().len() as int) =~= db.accounts());
        assert(db.goals().take(db.goals().len() as int) =~= db.goals());
        assert(db.bridge_states().take(db.bridge_states().len() as int) =~= db.bridge_states());
    }
    while at < evm_keys.len()
        invariant
            at <= evm_keys@.len(),
            evm_keys@.len() == eclipse_keys@.len(),
            outcomes@.len() == at,
            spec_grown_by(*old(db), *db, spec_created_before(outcomes@, at as int)),
            forall|k: int|
                0 <= k < at ==> #[trigger] spec_entry_ingested(
                    *old(db),
                    *db,
                    *config,
                    evm_keys@,
                    eclipse_keys@,
                    proxies@,
                    outcomes@,
                    k,
                ),
            spec_complete(*old(db)) ==> spec_complete(*db),
        decreases evm_keys.len() - at,
    {
        let proxy = if at < proxies.len() {
            Some(proxies[at].clone())
        } else {
            None
        };
        let ghost mid = *db;
        let ghost earlier = outcomes@;
        let outcome = ingest_entry(config, &evm_keys[at], eclipse_keys[at].as_str(), proxy, db);
        outcomes.push(outcome);
        proof {
            let created = spec_created_before(earlier, at as int);
            lemma_created_before_grows(earlier, 0, at as int);
            lemma_created_before_prefix(earlier, outcomes@, at as int);
            assert(spec_created_before(outcomes@, at as int) == created);
            assert(mid.accounts().take(mid.accounts().len() as int) =~= mid.accounts());
            assert forall|k: int| 0 <= k < at + 1 implies #[trigger] spec_entry_ingested(
                *old(db),
                *db,
                *config,
                evm_keys@,
                eclipse_keys@,
                proxies@,
                outcomes@,
                k,
            ) by {
                lemma_created_before_prefix(earlier, outcomes@, k);
                if k < at {
                    assert(spec_entry_ingested(
                        *old(db),
                        mid,
                        *config,
                        evm_keys@,
                        eclipse_keys@,
                        proxies@,
                        earlier,
                        k,
                    ));
                    lemma_created_before_grows(earlier, k, at as int);
                    let before_k = spec_created_before(earlier, k);
                    let bound = old(db).accounts().len() + before_k;
                    assert(db.accounts().take(bound) =~= mid.accounts().take(bound));
                    assert(outcomes@[k] == earlier[k]);
                    if earlier[k] is Created {
                        lemma_created_before_grows(earlier, k + 1, at as int);
                    }
                } else {
                    let bound = old(db).accounts().len() + created;
                    assert(db.accounts().take(bound) =~= mid.accounts());
                }
            }
            if outcome is Created {
                assert(db.accounts().drop_last() == mid.accounts());
                assert(db.goals().drop_last() == mid.goals());
                assert forall|i: int| 0 <= i < mid.accounts().len() implies db.accounts()[i]
                    == mid.accounts()[i] by {
                    assert(db.accounts().drop_last()[i] == mid.accounts()[i]);
                }
                assert forall|i: int| 0 <= i < mid.goals().len() implies db.goals()[i]
                    == mid.goals()[i] by {
                    assert(db.goals().drop_last()[i] == mid.goals()[i]);
                }
                assert(db.accounts().take(old(db).accounts().len() as int) =~= mid.accounts().take(
                    old(db).accounts().len() as int,
                ));
                assert(db.goals().take(old(db).goals().len() as int) =~= mid.goals().take(
                    old(db).goals().len() as int,
                ));
                assert(db.bridge_states().take(old(db).bridge_states().len() as int)
                    =~= mid.bridge_states().take(old(db).bridge_states().len() as int));
                if spec_complete(*old(db)) {
                    let id = outcome->Created_0;
                    assert forall|i: int| 0 <= i < db.accounts().len() implies {
                        &&& spec_goal_index(db.goals(), (#[trigger] db.accounts()[i]).id as int) is Some
                        &&& spec_bridge_state_index(
                            db.bridge_states(),
                            db.accounts()[i].id as int,
                        ) is Some
                    } by {
                        if i < mid.accounts().len() {
                            assert(db.accounts()[i] == mid.accounts()[i]);
                            let g = spec_goal_index(mid.goals(), mid.accounts()[i].id as int).unwrap();
                            assert(db.goals()[g] == db.goals().drop_last()[g]);
                            let b = spec_bridge_state_index(
                                mid.bridge_states(),
                                mid.accounts()[i].id as int,
                            ).unwrap();
                            assert(db.bridge_states()[b] == mid.bridge_states()[b]);
                            assert(db.bridge_states()[b].id == db.accounts()[i].id);
                        } else {
                            let g = db.goals().len() - 1;
                            assert(db.goals()[g].id == id);
                            let b = db.bridge_states().len() - 1;
                            assert(db.bridge_states()[b].id == id);
                        }
                    }
                }
            }
        }
        at = at + 1;
    }
    let unused_proxies = if proxies.len() > evm_keys.len() {
        proxies.len() - evm_keys.len()
    } else {
        0
    };
    IngestReport { outcomes, unused_proxies }
}

/// A store in which every account has its goal and its bridge state stays
/// such a store as long as the tables keep their ids: counting a swap or a
/// mint, retiring an account and marking funds as bridged change no id.
pub proof fn lemma_same_ids_keep_complete(before: Database, after: Database)
    requires
        spec_complete(before),
        after.accounts().len() == before.accounts().len(),
        forall|i: int|
            0 <= i < before.accounts().len() ==> (#[trigger] after.accounts()[i]).id
                == before.accounts()[i].id,
        after.goals() == before.goals(),
        after.bridge_states().len() == before.bridge_states().len(),
        forall|i: int|
            0 <= i < before.bridge_states().len() ==> (#[trigger] after.bridge_states()[i]).id
                == before.bridge_states()[i].id,
    ensures
        spec_complete(after),
{
    assert forall|i: int| 0 <= i < after.accounts().len() implies {
        &&& spec_goal_index(after.goals(), (#[trigger] after.accounts()[i]).id as int) is Some
        &&& spec_bridge_state_index(after.bridge_states(), after.accounts()[i].id as int) is Some
    } by {
        let id = before.accounts()[i].id;
        assert(spec_bridge_state_index(before.bridge_states(), id as int) is Some);
        let b = spec_bridge_state_index(before.bridge_states(), id as int).unwrap();
        assert(after.bridge_states()[b].id == id);
    }
}

/// Counting over the first entries does not look at what follows them.
proof fn lemma_created_before_prefix(shorter: Seq<Ingested>, longer: Seq<Ingested>, count: int)
    requires
        count <= shorter.len() <= longer.len(),
        forall|i: int| 0 <= i < shorter.len() ==> shorter[i] == longer[i],
    ensures
        spec_created_before(shorter, count) == spec_created_before(longer, count),
    decreases count,
{
    if count > 0 {
        lemma_created_before_prefix(shorter, longer, count - 1);
    }
}

/// The count of accounts grows with the number of entries, by at least one
/// for an entry that led to an account.
proof fn lemma_created_before_grows(outcomes: Seq<Ingested>, fewer: int, more: int)
    requires
        0 <= fewer <= more,
    ensures
        spec_created_before(outcomes, fewer) <= spec_created_before(outcomes, more),
        0 <= spec_created_before(outcomes, fewer),
    decreases more,
{
    if fewer < more {
        lemma_created_before_grows(outcomes, fewer, more - 1);
    } else if fewer > 0 {
        lemma_created_before_grows(outcomes, fewer - 1, fewer - 1);
    }
}

} // verus!
