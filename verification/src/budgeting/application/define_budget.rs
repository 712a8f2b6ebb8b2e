//! Command: define the budget of a category for a period.
use crate::budgeting::domain::budget::Budget;
use crate::budgeting::domain::events::BudgetDefined;
use crate::provider::id::IdGenerator;
use crate::shared::clock::now_millis;
use crate::shared::date::Period;
use crate::shared::errors::BudgetingError;
use crate::shared::ids::{BudgetID, CategoryID, UserID};
use crate::shared::money::Money;
use std::sync::Arc;
use vstd::prelude::*;

verus! {

/// Command to define a budget for a category within a period.
#[derive(Debug, Clone, Copy)]
pub struct DefineBudgetCommand {
    pub owner_id: UserID,
    pub category_id: CategoryID,
    pub period: Period,
    pub planned_amount: Money,
}

/// Handler that defines budgets, at most one per category and period.
pub struct DefineBudgetHandler<B, P, Id> {
    pub budget_repository: Arc<B>,
    pub event_publisher: Arc<P>,
    pub id_generator: Arc<Id>,
}

impl<B, P, Id> DefineBudgetHandler<B, P, Id> {
    /// Creates a new handler with the given dependencies.
    pub fn new(budget_repository: Arc<B>, event_publisher: Arc<P>, id_generator: Arc<Id>) -> (r: Self)
        ensures
            r.budget_repository == budget_repository,
            r.event_publisher == event_publisher,
            r.id_generator == id_generator,
    {
        DefineBudgetHandler { budget_repository, event_publisher, id_generator }
    }
}

impl<B, P, Id: IdGenerator> DefineBudgetHandler<B, P, Id> {
    /// The budget that the command defines, under a fresh identifier, and
    /// the event that announces it, given the budget already defined for
    /// the command's category and period (`existing`).
    ///
    /// Answers [`BudgetingError::InvariantViolation`] when such a budget
    /// exists and [`BudgetingError::InvalidAmount`] when the planned amount
    /// is not positive.
    pub fn define(&self, existing: Option<Budget>, cmd: DefineBudgetCommand) -> (r: Result<(Budget, BudgetDefined), BudgetingError>)
        ensures
            existing is Some ==> (r matches Err(BudgetingError::InvariantViolation(m)) && m@
                == "a budget already exists for this category and period"@),
            existing is None && cmd.planned_amount.cents <= 0 ==> r matches Err(
                BudgetingError::InvalidAmount(_),
            ),
            r is Ok <==> existing is None && cmd.planned_amount.cents > 0,
            r matches Ok(out) ==> {
                &&& out.0.owner_id == cmd.owner_id
                &&& out.0.category_id == cmd.category_id
                &&& out.0.period == cmd.period
                &&& out.0.planned_amount == cmd.planned_amount
                &&& out.1.budget_id == out.0.id
                &&& out.1.category_id == cmd.category_id
                &&& out.1.planned_amount == cmd.planned_amount
                &&& self.id_generator.issues(out.0.id.0)
            },
    {
        if existing.is_some() {
            return Err(
                BudgetingError::InvariantViolation(
                    String::from_str("a budget already exists for this category and period"),
                ),
            );
        }
        let id = BudgetID(self.id_generator.new_id());
        let budget = match Budget::new(id, cmd.owner_id, cmd.category_id, cmd.period, cmd.planned_amount) {
            Ok(b) => b,
            Err(e) => {
                return Err(e);
            },
        };
        let event = BudgetDefined {
            budget_id: budget.id,
            category_id: budget.category_id,
            planned_amount: budget.planned_amount,
            timestamp: now_millis(),
        };
        Ok((budget, event))
    }
}

} // verus!
