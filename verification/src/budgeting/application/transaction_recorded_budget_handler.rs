//! Ledger integration: expenses are checked against their budget.
use crate::budgeting::domain::budget::Budget;
use crate::budgeting::domain::events::BudgetExceeded;
use crate::ledger::events::TransactionRecorded;
use crate::ledger::transaction::TransactionType;
use crate::shared::clock::now_millis;
use crate::shared::date::{Period, YearMonth};
use crate::shared::errors::BudgetingError;
use crate::shared::ids::CategoryID;
use crate::shared::money::{Money, MoneyError};
use std::sync::Arc;
use vstd::prelude::*;

verus! {

/// Handler that reacts to recorded transactions by checking categorised
/// expenses against the budget of their category for their month, and
/// announcing [`BudgetExceeded`] when the total spent in that month goes
/// over the planned amount.
pub struct TransactionRecordedBudgetHandler<B, P> {
    pub budget_repository: Arc<B>,
    pub event_publisher: Arc<P>,
}

impl<B, P> TransactionRecordedBudgetHandler<B, P> {
    /// Creates a new handler with the given dependencies.
    pub fn new(budget_repository: Arc<B>, event_publisher: Arc<P>) -> (r: Self)
        ensures
            r.budget_repository == budget_repository,
            r.event_publisher == event_publisher,
    {
        TransactionRecordedBudgetHandler { budget_repository, event_publisher }
    }

    /// The category and period of the budget that the transaction is
    /// checked against: for an expense with a category, that category and
    /// the month of the transaction; `None` for any other transaction.
    pub fn budget_key(event: &TransactionRecorded) -> (r: Option<(CategoryID, Period)>)
        requires
            event.date.valid(),
        ensures
            r is Some <==> event.tx_type == TransactionType::Expense && event.category_id is Some,
            r matches Some(k) ==> Some(k.0) == event.category_id && k.1 == YearMonth::from_date_spec(
                event.date,
            ).spec_period(),
    {
        if event.tx_type != TransactionType::Expense {
            return None;
        }
        let category_id = match event.category_id {
            Some(c) => c,
            None => {
                return None;
            },
        };
        let period = YearMonth::from_date(event.date).period();
        Some((category_id, period))
    }

    /// The total spent under the budget once the expense is counted:
    /// `spent_before`, what the category's expenses of the budget's period
    /// already add up to, plus the expense's amount.
    ///
    /// Fails with [`BudgetingError::Money`] when the two amounts are in
    /// different currencies or their sum does not fit in 64 bits of cents.
    pub fn spent_with(spent_before: Money, event: &TransactionRecorded) -> (r: Result<Money, BudgetingError>)
        ensures
            spent_before.currency != event.amount.currency ==> r matches Err(
                BudgetingError::Money(MoneyError::CurrencyMismatch),
            ),
            spent_before.currency == event.amount.currency && !(i64::MIN <= spent_before.cents
                + event.amount.cents <= i64::MAX) ==> r matches Err(
                BudgetingError::Money(MoneyError::Overflow),
            ),
            r is Ok <==> spent_before.currency == event.amount.currency && i64::MIN
                <= spent_before.cents + event.amount.cents <= i64::MAX,
            r matches Ok(t) ==> t.cents == spent_before.cents + event.amount.cents && t.currency
                == event.amount.currency,
    {
        match spent_before.checked_add(event.amount) {
            Ok(t) => Ok(t),
            Err(e) => Err(BudgetingError::Money(e)),
        }
    }

    /// The alert to publish once an expense of category `category_id` is
    /// counted, given the budget found for it (`budget`) and the new total
    /// spent under that budget (`total_spent`, see
    /// [`TransactionRecordedBudgetHandler::spent_with`]): present exactly
    /// when there is a budget and the total exceeds its planned amount.
    pub fn check(category_id: CategoryID, budget: Option<Budget>, total_spent: Money) -> (r: Option<BudgetExceeded>)
        ensures
            r is Some <==> (budget matches Some(b) && total_spent.cents > b.planned_amount.cents),
            r matches Some(x) ==> (budget matches Some(b) && x.budget_id == b.id && x.category_id
                == category_id && x.planned_amount == b.planned_amount && x.spent_amount
                == total_spent),
    {
        let budget = match budget {
            Some(b) => b,
            None => {
                return None;
            },
        };
        if total_spent.cents > budget.planned_amount.cents {
            Some(
                BudgetExceeded {
                    budget_id: budget.id,
                    category_id,
                    planned_amount: budget.planned_amount,
                    spent_amount: total_spent,
                    timestamp: now_millis(),
                },
            )
        } else {
            None
        }
    }
}

} // verus!
