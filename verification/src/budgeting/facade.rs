//! Entry point of the budgeting context.
use crate::budgeting::application::annual_budget::CreateAnnualBudgetHandler;
use crate::budgeting::application::budget_progress::{remaining_of, BudgetProgress};
use crate::budgeting::application::contribute_to_goal::ContributeToGoalHandler;
use crate::budgeting::application::create_goal::CreateGoalHandler;
use crate::budgeting::application::define_budget::DefineBudgetHandler;
use crate::budgeting::domain::budget::Budget;
use crate::budgeting::domain::goal::FinancialGoal;
use crate::shared::money::Money;
use crate::shared::ids::UserID;
use crate::shared::sharing::share;
use std::sync::Arc;
use vstd::prelude::*;

verus! {

/// All the use cases of the budgeting context behind one value, sharing the
/// same ports.
pub struct BudgetingFacade<B, G, P, Id> {
    pub define_budget: DefineBudgetHandler<B, P, Id>,
    pub create_goal: CreateGoalHandler<G, Id>,
    pub contribute_to_goal: ContributeToGoalHandler<G, P>,
    pub create_annual_budgets: CreateAnnualBudgetHandler<B, P, Id>,
    pub budget_repository: Arc<B>,
    pub goal_repository: Arc<G>,
}

impl<B, G, P, Id> BudgetingFacade<B, G, P, Id> {
    /// Creates a new facade whose handlers share the given ports.
    pub fn new(
        budget_repository: Arc<B>,
        goal_repository: Arc<G>,
        event_publisher: Arc<P>,
        id_generator: Arc<Id>,
    ) -> (r: Self)
        ensures
            r.define_budget.budget_repository == budget_repository,
            r.define_budget.event_publisher == event_publisher,
            r.define_budget.id_generator == id_generator,
            r.create_goal.goal_repository == goal_repository,
            r.create_goal.id_generator == id_generator,
            r.contribute_to_goal.goal_repository == goal_repository,
            r.contribute_to_goal.event_publisher == event_publisher,
            r.create_annual_budgets.budget_repository == budget_repository,
            r.create_annual_budgets.event_publisher == event_publisher,
            r.create_annual_budgets.id_generator == id_generator,
            r.budget_repository == budget_repository,
            r.goal_repository == goal_repository,
    {
        BudgetingFacade {
            define_budget: DefineBudgetHandler::new(
                share(&budget_repository),
                share(&event_publisher),
                share(&id_generator),
            ),
            create_goal: CreateGoalHandler::new(share(&goal_repository), share(&id_generator)),
            contribute_to_goal: ContributeToGoalHandler::new(
                share(&goal_repository),
                share(&event_publisher),
            ),
            create_annual_budgets: CreateAnnualBudgetHandler::new(
                share(&budget_repository),
                event_publisher,
                id_generator,
            ),
            budget_repository,
            goal_repository,
        }
    }

    /// The progress of `owner`'s budget for a category and period, given
    /// the budget found for them (`budget`): its planned amount against
    /// nothing spent yet; none when no budget was found or it belongs to
    /// another user.
    pub fn budget_progress(owner: UserID, budget: Option<Budget>) -> (r: Option<BudgetProgress>)
        ensures
            r is Some <==> (budget matches Some(b) && b.owner_id == owner),
            r matches Some(p) ==> (budget matches Some(b) && p == (BudgetProgress {
                budget_id: b.id,
                category_id: b.category_id,
                period: b.period,
                planned: b.planned_amount,
                spent: Money { cents: 0, currency: b.planned_amount.currency },
            })),
    {
        match budget {
            Some(b) if b.owner_id == owner => Some(
                BudgetProgress::new(
                    b.id,
                    b.category_id,
                    b.period,
                    b.planned_amount,
                    Money::zero(b.planned_amount.currency),
                ),
            ),
            _ => None,
        }
    }

    /// What is left to gather for a goal: the target minus the gathered
    /// amount, or zero in the target's currency when that cannot be
    /// computed (see [`remaining_of`]).
    pub fn goal_remaining(goal: &FinancialGoal) -> (r: Money)
        ensures
            r == remaining_of(goal.target_amount, goal.current_amount),
    {
        match goal.target_amount.checked_sub(goal.current_amount) {
            Ok(m) => m,
            Err(_) => Money::zero(goal.target_amount.currency),
        }
    }
}

} // verus!
