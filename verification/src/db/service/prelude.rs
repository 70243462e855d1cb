//! The queries and mutations under names that tell the tables apart.

pub use super::{
    account::{mutation::Mutation as AccountMutation, query::Query as AccountQuery},
    account_goal::{mutation::Mutation as AccountGoalMutation, query::Query as AccountGoalQuery},
    bridge_module_state::{
        mutation::Mutation as BridgeModuleStateMutation, query::Query as BridgeModuleStateQuery,
    },
};
