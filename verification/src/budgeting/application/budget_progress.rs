//! How much of a budget has been spent.
use crate::shared::date::Period;
use crate::shared::ids::{BudgetID, CategoryID};
use crate::shared::money::Money;
use vstd::prelude::*;

verus! {

/// Planned against spent amounts of a budget.
#[derive(Debug, Clone, Copy)]
pub struct BudgetProgress {
    pub budget_id: BudgetID,
    pub category_id: CategoryID,
    pub period: Period,
    pub planned: Money,
    pub spent: Money,
}

/// What is left of `planned` once `spent` is spent: the difference when the
/// two are in the same currency and it fits in 64 bits of cents, otherwise
/// zero in the planned currency.
pub open spec fn remaining_of(planned: Money, spent: Money) -> Money {
    if planned.currency == spent.currency && i64::MIN <= planned.cents - spent.cents <= i64::MAX {
        Money { cents: (planned.cents - spent.cents) as i64, currency: planned.currency }
    } else {
        Money { cents: 0, currency: planned.currency }
    }
}

impl BudgetProgress {
    /// The progress of a budget.
    pub fn new(budget_id: BudgetID, category_id: CategoryID, period: Period, planned: Money, spent: Money) -> (r: BudgetProgress)
        ensures
            r == (BudgetProgress { budget_id, category_id, period, planned, spent }),
    {
        BudgetProgress { budget_id, category_id, period, planned, spent }
    }

    /// More was spent than planned.
    pub fn is_over(&self) -> (r: bool)
        ensures
            r == (self.spent.cents > self.planned.cents),
    {
        self.spent.cents > self.planned.cents
    }

    /// What is left of the planned amount; negative when the budget is
    /// exceeded (see [`remaining_of`]).
    pub fn remaining(&self) -> (r: Money)
        ensures
            r == remaining_of(self.planned, self.spent),
    {
        match self.planned.checked_sub(self.spent) {
            Ok(m) => m,
            Err(_) => Money::zero(self.planned.currency),
        }
    }
}

/// The remaining amount and the amount spent add up to the planned amount,
/// and a budget is over exactly when what remains is negative (for amounts
/// in one currency whose difference fits in 64 bits of cents).
pub proof fn lemma_remaining_balances(p: BudgetProgress)
    requires
        p.planned.currency == p.spent.currency,
        i64::MIN <= p.planned.cents - p.spent.cents <= i64::MAX,
    ensures
        remaining_of(p.planned, p.spent).cents + p.spent.cents == p.planned.cents,
        remaining_of(p.planned, p.spent).currency == p.planned.currency,
        (p.spent.cents > p.planned.cents) <==> remaining_of(p.planned, p.spent).cents < 0,
{
}

/// Builds [`BudgetProgress`] values.
#[derive(Debug, Clone, Copy)]
pub struct BudgetProgressCalculator;

impl BudgetProgressCalculator {
    /// The progress of a budget that planned `planned` and has spent
    /// `spent`.
    pub fn compute(budget_id: BudgetID, category_id: CategoryID, period: Period, planned: Money, spent: Money) -> (r: BudgetProgress)
        ensures
            r == (BudgetProgress { budget_id, category_id, period, planned, spent }),
    {
        BudgetProgress::new(budget_id, category_id, period, planned, spent)
    }
}

} // verus!
