//! Lookups in the table of goals.

use crate::db::entities::{spec_goal_index, AccountGoalModel, Database, StoreError};
use vstd::prelude::*;

verus! {

pub struct Query;

impl Query {
    /// The goal of the account with this id; `RecordNotFound` if the table
    /// holds none.
    pub fn get_account_goal_by_id(account_id: i32, db: &Database) -> (res: Result<
        AccountGoalModel,
        StoreError,
    >)
        ensures
            match spec_goal_index(db.goals(), account_id as int) {
                Some(i) => res == Ok::<AccountGoalModel, StoreError>(db.goals()[i]),
                None => res == Err::<AccountGoalModel, StoreError>(StoreError::RecordNotFound),
            },
    {
        match db.goal_index(account_id) {
            Some(i) => Ok(db.goals[i]),
            None => Err(StoreError::RecordNotFound),
        }
    }
}

} // verus!
