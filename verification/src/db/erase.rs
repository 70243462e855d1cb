//! Emptying the store.

use crate::db::entities::{AccountGoalModel, AccountModel, BridgeStateModel, Database};
use vstd::prelude::*;

verus! {

/// Removes every record of every table. The next account gets the id 1 again.
pub fn erase_all_tables(db: &mut Database)
    ensures
        final(db).accounts() == Seq::<AccountModel>::empty(),
        final(db).goals() == Seq::<AccountGoalModel>::empty(),
        final(db).bridge_states() == Seq::<BridgeStateModel>::empty(),
{
    *db = Database::new();
}

} // verus!
