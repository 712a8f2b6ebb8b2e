//! The budget aggregate: a planned amount for a category over a period.
use crate::shared::clock::{now_millis, Timestamp};
use crate::shared::date::Period;
use crate::shared::errors::BudgetingError;
use crate::shared::ids::{BudgetID, CategoryID, UserID};
use crate::shared::money::Money;
use vstd::prelude::*;

verus! {

/// The amount planned for spending in a category over a period.
#[derive(Debug, Clone)]
pub struct Budget {
    pub id: BudgetID,
    pub owner_id: UserID,
    pub category_id: CategoryID,
    pub period: Period,
    pub planned_amount: Money,
    pub created_at: Timestamp,
    pub updated_at: Timestamp,
}

impl Budget {
    /// Creates a budget, stamped with the current time.
    ///
    /// Fails with [`BudgetingError::InvalidAmount`] unless the planned
    /// amount is positive.
    pub fn new(
        id: BudgetID,
        owner_id: UserID,
        category_id: CategoryID,
        period: Period,
        planned_amount: Money,
    ) -> (r: Result<Budget, BudgetingError>)
        ensures
            r is Ok <==> planned_amount.cents > 0,
            r matches Ok(b) ==> b.planned_amount.cents > 0,
            r matches Ok(b) ==> b.id == id && b.owner_id == owner_id && b.category_id
                == category_id && b.period == period && b.planned_amount == planned_amount
                && b.created_at == b.updated_at,
            r matches Err(e) ==> (e matches BudgetingError::InvalidAmount(m) && m@
                == "planned amount must be positive"@),
    {
        if planned_amount.cents <= 0 {
            return Err(
                BudgetingError::InvalidAmount(String::from_str("planned amount must be positive")),
            );
        }
        let now = now_millis();
        Ok(
            Budget {
                id,
                owner_id,
                category_id,
                period,
                planned_amount,
                created_at: now,
                updated_at: now,
            },
        )
    }

    /// Replaces the planned amount, stamping the time of the change.
    ///
    /// A non-positive amount is refused with
    /// [`BudgetingError::InvalidAmount`] and the budget is left unchanged.
    pub fn update_amount(&mut self, new_amount: Money) -> (r: Result<(), BudgetingError>)
        ensures
            r is Ok <==> new_amount.cents > 0,
            r is Ok ==> *final(self) == (Budget {
                planned_amount: new_amount,
                updated_at: final(self).updated_at,
                ..*old(self)
            }),
            r is Err ==> *final(self) == *old(self),
            old(self).planned_amount.cents > 0 ==> final(self).planned_amount.cents > 0,
            r matches Err(e) ==> (e matches BudgetingError::InvalidAmount(m) && m@
                == "planned amount must be positive"@),
    {
        if new_amount.cents <= 0 {
            return Err(
                BudgetingError::InvalidAmount(String::from_str("planned amount must be positive")),
            );
        }
        self.planned_amount = new_amount;
        self.updated_at = now_millis();
        Ok(())
    }
}

} // verus!
