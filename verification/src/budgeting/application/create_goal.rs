//! Command: create a savings goal.
use crate::budgeting::domain::goal::{FinancialGoal, GoalStatus};
use crate::provider::id::IdGenerator;
use crate::shared::date::Date;
use crate::shared::ids::{GoalID, UserID};
use crate::shared::money::Money;
use std::sync::Arc;
use vstd::prelude::*;

verus! {

/// Command to create a new financial goal.
#[derive(Debug, Clone)]
pub struct CreateGoalCommand {
    pub owner_id: UserID,
    pub name: String,
    pub target_amount: Money,
    pub target_date: Date,
}

/// Handler that creates goals.
pub struct CreateGoalHandler<G, Id> {
    pub goal_repository: Arc<G>,
    pub id_generator: Arc<Id>,
}

impl<G, Id> CreateGoalHandler<G, Id> {
    /// Creates a new handler with the given dependencies.
    pub fn new(goal_repository: Arc<G>, id_generator: Arc<Id>) -> (r: Self)
        ensures
            r.goal_repository == goal_repository,
            r.id_generator == id_generator,
    {
        CreateGoalHandler { goal_repository, id_generator }
    }
}

impl<G, Id: IdGenerator> CreateGoalHandler<G, Id> {
    /// The goal that the command creates, under a fresh identifier.
    pub fn goal(&self, cmd: CreateGoalCommand) -> (r: FinancialGoal)
        ensures
            r.owner_id == cmd.owner_id,
            r.name == cmd.name,
            r.target_amount == cmd.target_amount,
            r.current_amount == (Money { cents: 0, currency: cmd.target_amount.currency }),
            r.target_date == cmd.target_date,
            r.linked_account_id is None,
            r.status == GoalStatus::InProgress,
            self.id_generator.issues(r.id.0),
    {
        let id = GoalID(self.id_generator.new_id());
        FinancialGoal::new(id, cmd.owner_id, cmd.name, cmd.target_amount, cmd.target_date)
    }
}

} // verus!
