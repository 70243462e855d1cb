//! The three kinds of record and the store that holds them.

use vstd::prelude::*;

verus! {

/// One account: a key pair on each chain, an optional proxy, whether it still
/// takes part in the warmup, and how many swaps and mints it has made.
#[derive(Clone, Debug, PartialEq, Eq)]
pub struct AccountModel {
    pub id: i32,
    pub is_active: bool,
    pub evm_private_key: String,
    pub evm_address: String,
    pub eclipse_private_key: String,
    pub eclipse_address: String,
    pub proxy: Option<String>,
    pub swap_count: i32,
    pub create_count: i32,
}

impl AccountModel {
    /// A copy of the record.
    pub fn clone_model(&self) -> (copy: AccountModel)
        ensures
            copy == *self,
    {
        AccountModel {
            id: self.id,
            is_active: self.is_active,
            evm_private_key: self.evm_private_key.clone(),
            evm_address: self.evm_address.clone(),
            eclipse_private_key: self.eclipse_private_key.clone(),
            eclipse_address: self.eclipse_address.clone(),
            proxy: match &self.proxy {
                Some(proxy) => Some(proxy.clone()),
                None => None,
            },
            swap_count: self.swap_count,
            create_count: self.create_count,
        }
    }
}

/// The quota of an account: how many swaps and mints it is to make.
#[derive(Clone, Copy, Debug, PartialEq, Eq, Structural)]
pub struct AccountGoalModel {
    pub id: i32,
    pub swap_count: i32,
    pub create_count: i32,
}

/// Whether the funds of an account have reached the other chain.
#[derive(Clone, Copy, Debug, PartialEq, Eq, Structural)]
pub struct BridgeStateModel {
    pub id: i32,
    pub funds_bridged: bool,
}

/// Why the store refused an operation.
#[derive(Clone, Copy, Debug, PartialEq, Eq, Structural)]
pub enum StoreError {
    /// No record answers the query.
    RecordNotFound,
    /// A key, an address or an id of the new record is already taken.
    UniqueViolation,
    /// The record names an account that the store does not hold.
    ForeignKeyViolation,
    /// The private key is not a base58 string.
    InvalidBase58,
    /// The decoded private key is not a key pair.
    InvalidKeypair,
    /// A counter or the id sequence has reached the largest value it can hold.
    Overflow,
    /// The store could not be reached.
    Connection,
}

/// The store: three tables, each in the order in which its records came.
pub struct Database {
    pub(crate) accounts: Vec<AccountModel>,
    pub(crate) goals: Vec<AccountGoalModel>,
    pub(crate) bridge_states: Vec<BridgeStateModel>,
}

/// Two accounts share none of the four values that must be unique.
pub open spec fn spec_keys_differ(a: AccountModel, b: AccountModel) -> bool {
    &&& a.evm_private_key@ != b.evm_private_key@
    &&& a.evm_address@ != b.evm_address@
    &&& a.eclipse_private_key@ != b.eclipse_private_key@
    &&& a.eclipse_address@ != b.eclipse_address@
}

/// The position of the account with this id, if the table holds one.
pub open spec fn spec_account_index(accounts: Seq<AccountModel>, id: int) -> Option<int> {
    if exists|i: int| 0 <= i < accounts.len() && accounts[i].id == id {
        Some(choose|i: int| 0 <= i < accounts.len() && accounts[i].id == id)
    } else {
        None
    }
}

/// The position of the goal with this id, if the table holds one.
pub open spec fn spec_goal_index(goals: Seq<AccountGoalModel>, id: int) -> Option<int> {
    if exists|i: int| 0 <= i < goals.len() && goals[i].id == id {
        Some(choose|i: int| 0 <= i < goals.len() && goals[i].id == id)
    } else {
        None
    }
}

/// The position of the bridge state with this id, if the table holds one.
pub open spec fn spec_bridge_state_index(states: Seq<BridgeStateModel>, id: int) -> Option<int> {
    if exists|i: int| 0 <= i < states.len() && states[i].id == id {
        Some(choose|i: int| 0 <= i < states.len() && states[i].id == id)
    } else {
        None
    }
}

/// The tables keep their constraints: ids of accounts are positive and grow,
/// keys and addresses are unique, and a goal or a bridge state has an id of
/// its own that names an account.
pub open spec fn spec_tables_valid(
    accounts: Seq<AccountModel>,
    goals: Seq<AccountGoalModel>,
    bridge_states: Seq<BridgeStateModel>,
) -> bool {
    &&& forall|i: int| 0 <= i < accounts.len() ==> (#[trigger] accounts[i]).id > 0
    &&& forall|i: int, j: int|
        0 <= i < j < accounts.len() ==> (#[trigger] accounts[i]).id < (#[trigger] accounts[j]).id
    &&& forall|i: int, j: int|
        0 <= i < j < accounts.len()
            ==> spec_keys_differ(#[trigger] accounts[i], #[trigger] accounts[j])
    &&& forall|i: int, j: int|
        0 <= i < j < goals.len() ==> (#[trigger] goals[i]).id != (#[trigger] goals[j]).id
    &&& forall|i: int|
        0 <= i < goals.len()
            ==> spec_account_index(accounts, (#[trigger] goals[i]).id as int) is Some
    &&& forall|i: int, j: int|
        0 <= i < j < bridge_states.len() ==> (#[trigger] bridge_states[i]).id != (
        #[trigger] bridge_states[j]).id
    &&& forall|i: int|
        0 <= i < bridge_states.len() ==> spec_account_index(
            accounts,
            (#[trigger] bridge_states[i]).id as int,
        ) is Some
}

/// A new account at the end of the table keeps the constraints, if its id is
/// larger than every id in use and its keys and addresses are new.
pub proof fn lemma_push_account_keeps_valid(
    accounts: Seq<AccountModel>,
    goals: Seq<AccountGoalModel>,
    bridge_states: Seq<BridgeStateModel>,
    account: AccountModel,
)
    requires
        spec_tables_valid(accounts, goals, bridge_states),
        account.id > 0,
        forall|i: int| 0 <= i < accounts.len() ==> (#[trigger] accounts[i]).id < account.id,
        forall|i: int| 0 <= i < accounts.len()
            ==> spec_keys_differ(#[trigger] accounts[i], account),
    ensures
        spec_tables_valid(accounts.push(account), goals, bridge_states),
{
    let after = accounts.push(account);
    assert forall|i: int| 0 <= i < goals.len() implies spec_account_index(
        after,
        (#[trigger] goals[i]).id as int,
    ) is Some by {
        let at = spec_account_index(accounts, goals[i].id as int).unwrap();
        assert(after[at].id == goals[i].id);
    }
    assert forall|i: int| 0 <= i < bridge_states.len() implies spec_account_index(
        after,
        (#[trigger] bridge_states[i]).id as int,
    ) is Some by {
        let at = spec_account_index(accounts, bridge_states[i].id as int).unwrap();
        assert(after[at].id == bridge_states[i].id);
    }
}

/// A changed account keeps the constraints, if it keeps its id, its keys and
/// its addresses.
pub proof fn lemma_update_account_keeps_valid(
    accounts: Seq<AccountModel>,
    goals: Seq<AccountGoalModel>,
    bridge_states: Seq<BridgeStateModel>,
    at: int,
    account: AccountModel,
)
    requires
        spec_tables_valid(accounts, goals, bridge_states),
        0 <= at < accounts.len(),
        account.id == accounts[at].id,
        account.evm_private_key@ == accounts[at].evm_private_key@,
        account.evm_address@ == accounts[at].evm_address@,
        account.eclipse_private_key@ == accounts[at].eclipse_private_key@,
        account.eclipse_address@ == accounts[at].eclipse_address@,
    ensures
        spec_tables_valid(accounts.update(at, account), goals, bridge_states),
        forall|id: int| spec_account_index(accounts.update(at, account), id)
            == spec_account_index(accounts, id),
{
    let after = accounts.update(at, account);
    assert forall|i: int, j: int| 0 <= i < j < after.len() implies (#[trigger] after[i]).id < (
    #[trigger] after[j]).id by {
        assert(accounts[i].id < accounts[j].id);
    }
    assert forall|i: int, j: int| 0 <= i < j < after.len() implies spec_keys_differ(
        #[trigger] after[i],
        #[trigger] after[j],
    ) by {
        assert(spec_keys_differ(accounts[i], accounts[j]));
    }
    assert forall|id: int| spec_account_index(after, id) == spec_account_index(accounts, id) by {
        lemma_same_ids_same_index(accounts, after, id);
    }
    assert forall|i: int| 0 <= i < goals.len() implies spec_account_index(
        after,
        (#[trigger] goals[i]).id as int,
    ) is Some by {
        assert(spec_account_index(accounts, goals[i].id as int) is Some);
    }
    assert forall|i: int| 0 <= i < bridge_states.len() implies spec_account_index(
        after,
        (#[trigger] bridge_states[i]).id as int,
    ) is Some by {
        assert(spec_account_index(accounts, bridge_states[i].id as int) is Some);
    }
}

/// A changed bridge state keeps the constraints, if it keeps its id.
pub proof fn lemma_update_bridge_state_keeps_valid(
    accounts: Seq<AccountModel>,
    goals: Seq<AccountGoalModel>,
    bridge_states: Seq<BridgeStateModel>,
    at: int,
    state: BridgeStateModel,
)
    requires
        spec_tables_valid(accounts, goals, bridge_states),
        0 <= at < bridge_states.len(),
        state.id == bridge_states[at].id,
    ensures
        spec_tables_valid(accounts, goals, bridge_states.update(at, state)),
{
    let after = bridge_states.update(at, state);
    assert forall|i: int, j: int| 0 <= i < j < after.len() implies (#[trigger] after[i]).id != (
    #[trigger] after[j]).id by {
        assert(bridge_states[i].id != bridge_states[j].id);
    }
    assert forall|i: int| 0 <= i < after.len() implies spec_account_index(
        accounts,
        (#[trigger] after[i]).id as int,
    ) is Some by {
        assert(spec_account_index(accounts, bridge_states[i].id as int) is Some);
    }
}

/// Two tables with the same ids at the same places find an id at the same place.
pub proof fn lemma_same_ids_same_index(a: Seq<AccountModel>, b: Seq<AccountModel>, id: int)
    requires
        a.len() == b.len(),
        forall|i: int| 0 <= i < a.len() ==> (#[trigger] a[i]).id == (#[trigger] b[i]).id,
        forall|i: int, j: int| 0 <= i < j < a.len() ==> (#[trigger] a[i]).id < (#[trigger] a[j]).id,
    ensures
        spec_account_index(a, id) == spec_account_index(b, id),
{
    if exists|i: int| 0 <= i < a.len() && a[i].id == id {
        let i = choose|i: int| 0 <= i < a.len() && a[i].id == id;
        assert(b[i].id == id);
        let j = choose|j: int| 0 <= j < b.len() && b[j].id == id;
        assert(a[j].id == b[j].id);
        if i < j {
            assert(a[i].id < a[j].id);
        }
        if j < i {
            assert(a[j].id < a[i].id);
        }
    } else {
        if exists|j: int| 0 <= j < b.len() && b[j].id == id {
            let j = choose|j: int| 0 <= j < b.len() && b[j].id == id;
            assert(a[j].id == b[j].id);
        }
    }
}

/// The account table keeps its constraints: ids are positive and grow, keys
/// and addresses are unique.
pub open spec fn spec_accounts_valid(accounts: Seq<AccountModel>) -> bool {
    &&& forall|i: int| 0 <= i < accounts.len() ==> (#[trigger] accounts[i]).id > 0
    &&& forall|i: int, j: int|
        0 <= i < j < accounts.len() ==> (#[trigger] accounts[i]).id < (#[trigger] accounts[j]).id
    &&& forall|i: int, j: int|
        0 <= i < j < accounts.len()
            ==> spec_keys_differ(#[trigger] accounts[i], #[trigger] accounts[j])
}

/// Whether two accounts share none of the four values that must be unique.
fn keys_differ(a: &AccountModel, b: &AccountModel) -> (differ: bool)
    ensures
        differ == spec_keys_differ(*a, *b),
{
    !(a.evm_private_key == b.evm_private_key) && !(a.evm_address == b.evm_address) && !(
    a.eclipse_private_key == b.eclipse_private_key) && !(a.eclipse_address == b.eclipse_address)
}

/// Whether the account table keeps its constraints.
fn accounts_valid(accounts: &Vec<AccountModel>) -> (valid: bool)
    ensures
        valid == spec_accounts_valid(accounts@),
{
    let mut at: usize = 0;
    while at < accounts.len()
        invariant
            at <= accounts.len(),
            spec_accounts_valid(accounts@.take(at as int)),
        decreases accounts.len() - at,
    {
        if accounts[at].id <= 0 {
            assert(!(accounts@[at as int].id > 0));
            return false;
        }
        if at > 0 && accounts[at - 1].id >= accounts[at].id {
            assert(!(accounts@[at - 1].id < accounts@[at as int].id));
            return false;
        }
        let mut before: usize = 0;
        while before < at
            invariant
                before <= at < accounts.len(),
                forall|i: int|
                    0 <= i < before ==> spec_keys_differ(
                        #[trigger] accounts@[i],
                        accounts@[at as int],
                    ),
            decreases at - before,
        {
            if !keys_differ(&accounts[before], &accounts[at]) {
                assert(!spec_keys_differ(accounts@[before as int], accounts@[at as int]));
                return false;
            }
            before = before + 1;
        }
        proof {
            let shorter = accounts@.take(at as int);
            let longer = accounts@.take(at + 1);
            assert forall|i: int, j: int| 0 <= i < j < longer.len() implies (
            #[trigger] longer[i]).id < (#[trigger] longer[j]).id by {
                if j < at {
                    assert(shorter[i].id < shorter[j].id);
                } else if i < at - 1 {
                    assert(shorter[i].id < shorter[at - 1].id);
                }
            }
            assert forall|i: int, j: int| 0 <= i < j < longer.len() implies spec_keys_differ(
                #[trigger] longer[i],
                #[trigger] longer[j],
            ) by {
                if j < at {
                    assert(spec_keys_differ(shorter[i], shorter[j]));
                }
            }
            assert forall|i: int| 0 <= i < longer.len() implies (#[trigger] longer[i]).id > 0 by {
                if i < at {
                    assert(shorter[i].id > 0);
                }
            }
        }
        at = at + 1;
    }
    assert(accounts@.take(at as int) =~= accounts@);
    true
}

/// Whether the table holds an account with this id.
fn has_account(accounts: &Vec<AccountModel>, id: i32) -> (found: bool)
    ensures
        found == spec_account_index(accounts@, id as int) is Some,
{
    let mut at: usize = 0;
    while at < accounts.len()
        invariant
            at <= accounts.len(),
            forall|i: int| 0 <= i < at ==> (#[trigger] accounts@[i]).id != id,
        decreases accounts.len() - at,
    {
        if accounts[at].id == id {
            return true;
        }
        at = at + 1;
    }
    false
}

impl Database {
    /// The accounts, oldest first.
    pub open(crate) spec fn accounts(self) -> Seq<AccountModel> {
        self.accounts@
    }

    /// The goals, oldest first.
    pub open(crate) spec fn goals(self) -> Seq<AccountGoalModel> {
        self.goals@
    }

    /// The bridge states, oldest first.
    pub open(crate) spec fn bridge_states(self) -> Seq<BridgeStateModel> {
        self.bridge_states@
    }

    /// The constraints of the three tables hold.
    pub open spec fn wf(self) -> bool {
        spec_tables_valid(self.accounts(), self.goals(), self.bridge_states())
    }

    #[verifier::type_invariant]
    pub open(crate) spec fn tables_valid(self) -> bool {
        self.wf()
    }

    /// Finds the account with this id.
    pub fn account_index(&self, id: i32) -> (found: Option<usize>)
        ensures
            found is Some ==> spec_account_index(self.accounts(), id as int) == Some(
                found.unwrap() as int,
            ),
            found is Some ==> found.unwrap() < self.accounts().len()
                && self.accounts()[found.unwrap() as int].id
                == id,
            found is None ==> spec_account_index(self.accounts(), id as int) is None,
            found is None ==> forall|i: int|
                0 <= i < self.accounts().len() ==> (#[trigger] self.accounts()[i]).id != id,
    {
        proof {
            use_type_invariant(self);
        }
        let mut at: usize = 0;
        while at < self.accounts.len()
            invariant
                at <= self.accounts.len(),
                self.wf(),
                forall|i: int| 0 <= i < at ==> (#[trigger] self.accounts()[i]).id != id,
            decreases self.accounts.len() - at,
        {
            if self.accounts[at].id == id {
                proof {
                    let chosen = choose|i: int|
                        0 <= i < self.accounts().len() && self.accounts()[i].id == id;
                    assert(self.accounts()[at as int].id == id);
                    if chosen < at {
                        assert(self.accounts()[chosen].id < self.accounts()[at as int].id);
                    }
                    if chosen > at {
                        assert(self.accounts()[at as int].id < self.accounts()[chosen].id);
                    }
                }
                return Some(at);
            }
            at = at + 1;
        }
        None
    }

    /// Finds the goal with this id.
    pub fn goal_index(&self, id: i32) -> (found: Option<usize>)
        ensures
            found is Some ==> spec_goal_index(self.goals(), id as int)
                == Some(found.unwrap() as int),
            found is Some ==> found.unwrap() < self.goals().len()
                && self.goals()[found.unwrap() as int].id
                == id,
            found is None ==> spec_goal_index(self.goals(), id as int) is None,
            found is None ==> forall|i: int|
                0 <= i < self.goals().len() ==> (#[trigger] self.goals()[i]).id != id,
    {
        proof {
            use_type_invariant(self);
        }
        let mut at: usize = 0;
        while at < self.goals.len()
            invariant
                at <= self.goals.len(),
                self.wf(),
                forall|i: int| 0 <= i < at ==> (#[trigger] self.goals()[i]).id != id,
            decreases self.goals.len() - at,
        {
            if self.goals[at].id == id {
                proof {
                    let chosen = choose|i: int| 0 <= i < self.goals().len()
                        && self.goals()[i].id == id;
                    assert(self.goals()[at as int].id == id);
                    if chosen < at {
                        assert(self.goals()[chosen].id != self.goals()[at as int].id);
                    }
                    if chosen > at {
                        assert(self.goals()[at as int].id != self.goals()[chosen].id);
                    }
                }
                return Some(at);
            }
            at = at + 1;
        }
        None
    }

    /// Finds the bridge state with this id.
    pub fn bridge_state_index(&self, id: i32) -> (found: Option<usize>)
        ensures
            found is Some ==> spec_bridge_state_index(self.bridge_states(), id as int) == Some(
                found.unwrap() as int,
            ),
            found is Some ==> found.unwrap() < self.bridge_states().len()
                && self.bridge_states()[found.unwrap() as int].id == id,
            found is None ==> spec_bridge_state_index(self.bridge_states(), id as int) is None,
            found is None ==> forall|i: int|
                0 <= i < self.bridge_states().len()
                    ==> (#[trigger] self.bridge_states()[i]).id != id,
    {
        proof {
            use_type_invariant(self);
        }
        let mut at: usize = 0;
        while at < self.bridge_states.len()
            invariant
                at <= self.bridge_states.len(),
                self.wf(),
                forall|i: int| 0 <= i < at ==> (#[trigger] self.bridge_states()[i]).id != id,
            decreases self.bridge_states.len() - at,
        {
            if self.bridge_states[at].id == id {
                proof {
                    let chosen = choose|i: int|
                        0 <= i < self.bridge_states().len() && self.bridge_states()[i].id == id;
                    assert(self.bridge_states()[at as int].id == id);
                    if chosen < at {
                        assert(self.bridge_states()[chosen].id
                            != self.bridge_states()[at as int].id);
                    }
                    if chosen > at {
                        assert(self.bridge_states()[at as int].id
                            != self.bridge_states()[chosen].id);
                    }
                }
                return Some(at);
            }
            at = at + 1;
        }
        None
    }

    /// Puts an account at the end of its table.
    pub(crate) fn push_account(&mut self, account: AccountModel)
        requires
            spec_tables_valid(
                old(self).accounts().push(account),
                old(self).goals(),
                old(self).bridge_states(),
            ),
        ensures
            final(self).accounts() == old(self).accounts().push(account),
            final(self).goals() == old(self).goals(),
            final(self).bridge_states() == old(self).bridge_states(),
    {
        let mut taken = Database::new();
        core::mem::swap(self, &mut taken);
        let Database { mut accounts, goals, bridge_states } = taken;
        accounts.push(account);
        *self = Database { accounts, goals, bridge_states };
    }

    /// Puts an account in the place of another.
    pub(crate) fn set_account(&mut self, at: usize, account: AccountModel)
        requires
            at < old(self).accounts().len(),
            spec_tables_valid(
                old(self).accounts().update(at as int, account),
                old(self).goals(),
                old(self).bridge_states(),
            ),
        ensures
            final(self).accounts() == old(self).accounts().update(at as int, account),
            final(self).goals() == old(self).goals(),
            final(self).bridge_states() == old(self).bridge_states(),
    {
        let mut taken = Database::new();
        core::mem::swap(self, &mut taken);
        let Database { mut accounts, goals, bridge_states } = taken;
        accounts.set(at, account);
        *self = Database { accounts, goals, bridge_states };
    }

    /// Puts a goal at the end of its table.
    pub(crate) fn push_goal(&mut self, goal: AccountGoalModel)
        requires
            spec_tables_valid(
                old(self).accounts(),
                old(self).goals().push(goal),
                old(self).bridge_states(),
            ),
        ensures
            final(self).accounts() == old(self).accounts(),
            final(self).goals() == old(self).goals().push(goal),
            final(self).bridge_states() == old(self).bridge_states(),
    {
        let mut taken = Database::new();
        core::mem::swap(self, &mut taken);
        let Database { accounts, mut goals, bridge_states } = taken;
        goals.push(goal);
        *self = Database { accounts, goals, bridge_states };
    }

    /// Puts a bridge state at the end of its table.
    pub(crate) fn push_bridge_state(&mut self, state: BridgeStateModel)
        requires
            spec_tables_valid(
                old(self).accounts(),
                old(self).goals(),
                old(self).bridge_states().push(state),
            ),
        ensures
            final(self).accounts() == old(self).accounts(),
            final(self).goals() == old(self).goals(),
            final(self).bridge_states() == old(self).bridge_states().push(state),
    {
        let mut taken = Database::new();
        core::mem::swap(self, &mut taken);
        let Database { accounts, goals, mut bridge_states } = taken;
        bridge_states.push(state);
        *self = Database { accounts, goals, bridge_states };
    }

    /// Puts a bridge state in the place of another.
    pub(crate) fn set_bridge_state(&mut self, at: usize, state: BridgeStateModel)
        requires
            at < old(self).bridge_states().len(),
            spec_tables_valid(
                old(self).accounts(),
                old(self).goals(),
                old(self).bridge_states().update(at as int, state),
            ),
        ensures
            final(self).accounts() == old(self).accounts(),
            final(self).goals() == old(self).goals(),
            final(self).bridge_states() == old(self).bridge_states().update(at as int, state),
    {
        let mut taken = Database::new();
        core::mem::swap(self, &mut taken);
        let Database { accounts, goals, mut bridge_states } = taken;
        bridge_states.set(at, state);
        *self = Database { accounts, goals, bridge_states };
    }

    /// The accounts, oldest first.
    pub fn account_records(&self) -> (records: &Vec<AccountModel>)
        ensures
            records@ == self.accounts(),
    {
        &self.accounts
    }

    /// The goals, oldest first.
    pub fn goal_records(&self) -> (records: &Vec<AccountGoalModel>)
        ensures
            records@ == self.goals(),
    {
        &self.goals
    }

    /// The bridge states, oldest first.
    pub fn bridge_state_records(&self) -> (records: &Vec<BridgeStateModel>)
        ensures
            records@ == self.bridge_states(),
    {
        &self.bridge_states
    }

    /// A store that holds these records, if they keep the constraints of the
    /// tables; nothing otherwise.
    pub fn from_records(
        accounts: Vec<AccountModel>,
        goals: Vec<AccountGoalModel>,
        bridge_states: Vec<BridgeStateModel>,
    ) -> (db: Option<Database>)
        ensures
            db is Some <==> spec_tables_valid(accounts@, goals@, bridge_states@),
            db is Some ==> db.unwrap().accounts() == accounts@ && db.unwrap().goals() == goals@
                && db.unwrap().bridge_states() == bridge_states@,
    {
        if !accounts_valid(&accounts) {
            return None;
        }
        let mut at: usize = 0;
        while at < goals.len()
            invariant
                at <= goals.len(),
                forall|i: int, j: int|
                    0 <= i < j < at ==> (#[trigger] goals@[i]).id != (#[trigger] goals@[j]).id,
                forall|i: int|
                    0 <= i < at
                        ==> spec_account_index(accounts@, (#[trigger] goals@[i]).id as int) is Some,
            decreases goals.len() - at,
        {
            let id = goals[at].id;
            if !has_account(&accounts, id) {
                return None;
            }
            let mut before: usize = 0;
            while before < at
                invariant
                    before <= at < goals.len(),
                    id == goals@[at as int].id,
                    forall|i: int| 0 <= i < before ==> (#[trigger] goals@[i]).id != id,
                decreases at - before,
            {
                if goals[before].id == id {
                    return None;
                }
                before = before + 1;
            }
            at = at + 1;
        }
        let mut at: usize = 0;
        while at < bridge_states.len()
            invariant
                at <= bridge_states.len(),
                forall|i: int, j: int|
                    0 <= i < j < at ==> (#[trigger] bridge_states@[i]).id != (
                    #[trigger] bridge_states@[j]).id,
                forall|i: int|
                    0 <= i < at ==> spec_account_index(
                        accounts@,
                        (#[trigger] bridge_states@[i]).id as int,
                    ) is Some,
            decreases bridge_states.len() - at,
        {
            let id = bridge_states[at].id;
            if !has_account(&accounts, id) {
                return None;
            }
            let mut before: usize = 0;
            while before < at
                invariant
                    before <= at < bridge_states.len(),
                    id == bridge_states@[at as int].id,
                    forall|i: int| 0 <= i < before ==> (#[trigger] bridge_states@[i]).id != id,
                decreases at - before,
            {
                if bridge_states[before].id == id {
                    return None;
                }
                before = before + 1;
            }
            at = at + 1;
        }
        Some(Database { accounts, goals, bridge_states })
    }

    /// A store without records.
    pub fn new() -> (db: Database)
        ensures
            db.accounts() == Seq::<AccountModel>::empty(),
            db.goals() == Seq::<AccountGoalModel>::empty(),
            db.bridge_states() == Seq::<BridgeStateModel>::empty(),
            db.wf(),
    {
        Database { accounts: Vec::new(), goals: Vec::new(), bridge_states: Vec::new() }
    }
}

} // verus!
