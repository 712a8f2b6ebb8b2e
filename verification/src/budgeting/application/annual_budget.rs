//! Command: budget a category for each month of a year.
use crate::budgeting::application::budget_progress::BudgetProgress;
use crate::budgeting::domain::budget::Budget;
use crate::budgeting::domain::events::BudgetDefined;
use crate::provider::id::IdGenerator;
use crate::shared::clock::now_millis;
use crate::shared::date::{Period, YearMonth, MAX_YEAR, MIN_YEAR};
use crate::shared::errors::BudgetingError;
use crate::shared::ids::{BudgetID, CategoryID, Principal};
use crate::shared::money::Money;
use std::sync::Arc;
use vstd::prelude::*;

verus! {

/// Command to create a 12-month annual budget for a category.
#[derive(Debug, Clone, Copy)]
pub struct CreateAnnualBudgetCommand {
    pub principal: Principal,
    pub category_id: CategoryID,
    pub year: i32,
    pub monthly_amount: Money,
}

/// Handler that budgets a category month by month over a year: each month
/// of the year that has no budget for the category yet gets one of the
/// monthly amount; months that have one are skipped.
pub struct CreateAnnualBudgetHandler<B, P, Id> {
    pub budget_repository: Arc<B>,
    pub event_publisher: Arc<P>,
    pub id_generator: Arc<Id>,
}

/// Read model for annual budget progress: the progress of each month.
#[derive(Debug, Clone)]
pub struct AnnualBudgetProgress {
    pub category_id: CategoryID,
    pub year: i32,
    pub monthly: Vec<BudgetProgress>,
}

impl<B, P, Id> CreateAnnualBudgetHandler<B, P, Id> {
    /// Creates a new handler with the given dependencies.
    pub fn new(budget_repository: Arc<B>, event_publisher: Arc<P>, id_generator: Arc<Id>) -> (r: Self)
        ensures
            r.budget_repository == budget_repository,
            r.event_publisher == event_publisher,
            r.id_generator == id_generator,
    {
        CreateAnnualBudgetHandler { budget_repository, event_publisher, id_generator }
    }

    /// The twelve month periods of `year`, January first.
    pub fn periods(year: i32) -> (r: Vec<Period>)
        requires
            MIN_YEAR <= year <= MAX_YEAR,
        ensures
            r@.len() == 12,
            forall|i: int|
                0 <= i < 12 ==> #[trigger] r@[i] == (YearMonth { year, month: (i + 1) as u32 }).spec_period(),
    {
        let mut out: Vec<Period> = Vec::new();
        let mut month: u32 = 1;
        while month <= 12
            invariant
                1 <= month <= 13,
                MIN_YEAR <= year <= MAX_YEAR,
                out@.len() == month - 1,
                forall|i: int|
                    0 <= i < month - 1 ==> #[trigger] out@[i] == (YearMonth {
                        year,
                        month: (i + 1) as u32,
                    }).spec_period(),
            decreases 13 - month,
        {
            let ym = YearMonth::new(year, month);
            out.push(ym.period());
            month = month + 1;
        }
        out
    }
}

impl<B, P, Id: IdGenerator> CreateAnnualBudgetHandler<B, P, Id> {
    /// The budget of one month of the command, given the budget already
    /// defined for the category and that month (`existing`): none when it
    /// exists; otherwise a budget of the monthly amount under a fresh
    /// identifier and the event that announces it.
    ///
    /// Answers [`BudgetingError::InvalidAmount`] when a budget is needed and
    /// the monthly amount is not positive.
    pub fn month_budget(&self, cmd: &CreateAnnualBudgetCommand, period: Period, existing: Option<Budget>) -> (r: Result<Option<(Budget, BudgetDefined)>, BudgetingError>)
        ensures
            existing is Some ==> r matches Ok(None),
            existing is None && cmd.monthly_amount.cents <= 0 ==> r matches Err(
                BudgetingError::InvalidAmount(_),
            ),
            existing is None && cmd.monthly_amount.cents > 0 ==> r matches Ok(Some(_)),
            r matches Ok(Some(out)) ==> {
                &&& out.0.owner_id == cmd.principal.user_id
                &&& out.0.category_id == cmd.category_id
                &&& out.0.period == period
                &&& out.0.planned_amount == cmd.monthly_amount
                &&& out.1.budget_id == out.0.id
                &&& out.1.category_id == cmd.category_id
                &&& out.1.planned_amount == cmd.monthly_amount
                &&& self.id_generator.issues(out.0.id.0)
            },
    {
        if existing.is_some() {
            return Ok(None);
        }
        let id = BudgetID(self.id_generator.new_id());
        let budget = match Budget::new(
            id,
            cmd.principal.user_id,
            cmd.category_id,
            period,
            cmd.monthly_amount,
        ) {
            Ok(b) => b,
            Err(e) => {
                return Err(e);
            },
        };
        let event = BudgetDefined {
            budget_id: budget.id,
            category_id: budget.category_id,
            planned_amount: budget.planned_amount,
            timestamp: now_millis(),
        };
        Ok(Some((budget, event)))
    }
}

} // verus!
