//! Changes to the table of goals.

use crate::config::Config;
use crate::db::entities::{
    spec_account_index, spec_goal_index, AccountGoalModel, Database, StoreError,
};
use crate::utils::misc::{random_in_range, spec_range_high, spec_range_low};
use vstd::prelude::*;

verus! {

/// A drawn count as the store keeps it: the same number where it fits in 31
/// bits, and otherwise the negative number with the same 32 bits.
pub open spec fn spec_quota(count: u32) -> int {
    if count <= i32::MAX {
        count as int
    } else {
        count - 0x1_0000_0000
    }
}

/// Turns a drawn count into the number that the store keeps.
pub fn quota_from(count: u32) -> (quota: i32)
    ensures
        quota == spec_quota(count),
{
    if count <= 0x7fff_ffff {
        count as i32
    } else {
        let above: u32 = count - 0x8000_0000;
        (above as i32) + i32::MIN
    }
}

/// What adding a goal gives: the id, or why it is refused.
pub open spec fn spec_insert_goal(db: Database, account_id: i32) -> Result<i32, StoreError> {
    if spec_goal_index(db.goals(), account_id as int) is Some {
        Err(StoreError::UniqueViolation)
    } else if spec_account_index(db.accounts(), account_id as int) is None {
        Err(StoreError::ForeignKeyViolation)
    } else {
        Ok(account_id)
    }
}

pub struct Mutation;

impl Mutation {
    /// Gives the account the goal of `swap_target` swaps and `create_target`
    /// mints.
    ///
    /// The goal is refused, and the store left as it was, where the account
    /// has a goal already (`UniqueViolation`) or does not exist
    /// (`ForeignKeyViolation`).
    pub fn insert_account_goal(
        account_id: i32,
        swap_target: u32,
        create_target: u32,
        db: &mut Database,
    ) -> (res: Result<i32, StoreError>)
        ensures
            res == spec_insert_goal(*old(db), account_id),
            final(db).accounts() == old(db).accounts(),
            final(db).bridge_states() == old(db).bridge_states(),
            res is Err ==> final(db).goals() == old(db).goals(),
            res is Ok ==> final(db).goals() == old(db).goals().push(
                (AccountGoalModel {
                    id: account_id,
                    swap_count: spec_quota(swap_target) as i32,
                    create_count: spec_quota(create_target) as i32,
                }),
            ),
    {
        proof {
            use_type_invariant(&*db);
        }
        if db.goal_index(account_id).is_some() {
            return Err(StoreError::UniqueViolation);
        }
        if db.account_index(account_id).is_none() {
            return Err(StoreError::ForeignKeyViolation);
        }
        let goal = AccountGoalModel {
            id: account_id,
            swap_count: quota_from(swap_target),
            create_count: quota_from(create_target),
        };
        proof {
            let after = db.goals().push(goal);
            assert forall|i: int| 0 <= i < after.len() implies spec_account_index(
                db.accounts(),
                (#[trigger] after[i]).id as int,
            ) is Some by {
                if i < db.goals().len() {
                    assert(after[i] == db.goals()[i]);
                }
            }
        }
        db.push_goal(goal);
        Ok(account_id)
    }

    /// Draws a goal for the account from the configured ranges and stores it.
    ///
    /// The number of swaps is drawn from the range of swaps, the number of
    /// mints from the range of mints, bounds included. Success and failure
    /// are those of `insert_account_goal`.
    pub fn create_account_goal(config: &Config, account_id: i32, db: &mut Database) -> (res: Result<
        i32,
        StoreError,
    >)
        ensures
            res == spec_insert_goal(*old(db), account_id),
            final(db).accounts() == old(db).accounts(),
            final(db).bridge_states() == old(db).bridge_states(),
            res is Err ==> final(db).goals() == old(db).goals(),
            res is Ok ==> exists|swap_target: u32, create_target: u32|
                {
                    &&& spec_range_low(config.lifinity.swaps_count_range) <= swap_target
                        <= spec_range_high(config.lifinity.swaps_count_range)
                    &&& spec_range_low(config.underdog.create_count_range) <= create_target
                        <= spec_range_high(config.underdog.create_count_range)
                    &&& final(db).goals() == old(db).goals().push(
                        #[trigger] spec_goal(account_id, swap_target, create_target),
                    )
                },
    {
        let swap_target = random_in_range(config.lifinity.swaps_count_range);
        let create_target = random_in_range(config.underdog.create_count_range);
        let res = Self::insert_account_goal(account_id, swap_target, create_target, db);
        proof {
            if res is Ok {
                assert(db.goals() == old(db).goals().push(
                    spec_goal(account_id, swap_target, create_target),
                ));
            }
        }
        res
    }
}

/// The goal that is stored for two drawn counts.
pub open spec fn spec_goal(account_id: i32, swap_target: u32, create_target: u32) -> AccountGoalModel {
    AccountGoalModel {
        id: account_id,
        swap_count: spec_quota(swap_target) as i32,
        create_count: spec_quota(create_target) as i32,
    }
}

} // verus!
