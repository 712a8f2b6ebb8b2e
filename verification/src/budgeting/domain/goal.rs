//! The savings goal aggregate.
use crate::shared::clock::{now_millis, Timestamp};
use crate::shared::date::Date;
use crate::shared::errors::BudgetingError;
use crate::shared::ids::{AccountID, GoalID, UserID};
use crate::shared::money::{Money, MoneyError};
use vstd::prelude::*;

verus! {

/// Lifecycle of a goal: in progress until its target is reached
/// (achieved) or it is given up (abandoned); both ends are final.
#[derive(Debug, Clone, Copy, PartialEq, Eq, Structural, Hash)]
pub enum GoalStatus {
    InProgress,
    Achieved,
    Abandoned,
}

/// A savings goal: an amount to gather by a date, possibly fed
/// automatically by the income of a linked account.
#[derive(Debug, Clone)]
pub struct FinancialGoal {
    pub id: GoalID,
    pub owner_id: UserID,
    pub name: String,
    pub target_amount: Money,
    pub current_amount: Money,
    pub target_date: Date,
    pub linked_account_id: Option<AccountID>,
    pub status: GoalStatus,
    pub created_at: Timestamp,
    pub updated_at: Timestamp,
}

/// A contribution of `amount` to `g` can be recorded: the goal is in
/// progress and the amount adds to the gathered amount without error.
pub open spec fn can_contribute(g: FinancialGoal, amount: Money) -> bool {
    &&& g.status == GoalStatus::InProgress
    &&& amount.currency == g.current_amount.currency
    &&& i64::MIN <= g.current_amount.cents + amount.cents <= i64::MAX
}

/// The goal `g` after a contribution of `amount`, up to the time of the
/// change: the amount is added to what was gathered, and the goal is
/// achieved once that reaches the target.
pub open spec fn contributed(g: FinancialGoal, amount: Money, at: Timestamp) -> FinancialGoal {
    let sum = (g.current_amount.cents + amount.cents) as i64;
    FinancialGoal {
        current_amount: Money { cents: sum, currency: g.current_amount.currency },
        status: if sum >= g.target_amount.cents {
            GoalStatus::Achieved
        } else {
            GoalStatus::InProgress
        },
        updated_at: at,
        ..g
    }
}

/// A contribution makes a goal achieved exactly when the new total reaches
/// the target, and an achieved or abandoned goal takes no contribution.
pub proof fn lemma_goal_achievement(g: FinancialGoal, amount: Money, at: Timestamp)
    ensures
        can_contribute(g, amount) ==> (contributed(g, amount, at).status == GoalStatus::Achieved
            <==> g.current_amount.cents + amount.cents >= g.target_amount.cents),
        can_contribute(g, amount) ==> contributed(g, amount, at).current_amount.cents
            == g.current_amount.cents + amount.cents,
        g.status != GoalStatus::InProgress ==> !can_contribute(g, amount),
{
}

/// Contributions add up: two accepted contributions leave the goal with the
/// sum of both added to what it had gathered, in the same currency.
pub proof fn lemma_contributions_accumulate(
    g: FinancialGoal,
    a: Money,
    b: Money,
    t1: Timestamp,
    t2: Timestamp,
)
    requires
        can_contribute(g, a),
        can_contribute(contributed(g, a, t1), b),
    ensures
        contributed(contributed(g, a, t1), b, t2).current_amount.cents == g.current_amount.cents
            + a.cents + b.cents,
        contributed(contributed(g, a, t1), b, t2).current_amount.currency
            == g.current_amount.currency,
{
}

impl FinancialGoal {
    /// A goal in progress with nothing gathered yet (zero in the target's
    /// currency), linked to no account, stamped with the current time.
    pub fn new(id: GoalID, owner_id: UserID, name: String, target_amount: Money, target_date: Date) -> (r: FinancialGoal)
        ensures
            r.id == id,
            r.owner_id == owner_id,
            r.name == name,
            r.target_amount == target_amount,
            r.current_amount == (Money { cents: 0, currency: target_amount.currency }),
            r.target_date == target_date,
            r.linked_account_id is None,
            r.status == GoalStatus::InProgress,
            r.created_at == r.updated_at,
    {
        let now = now_millis();
        FinancialGoal {
            id,
            owner_id,
            name,
            target_amount,
            current_amount: Money::zero(target_amount.currency),
            target_date,
            linked_account_id: None,
            status: GoalStatus::InProgress,
            created_at: now,
            updated_at: now,
        }
    }

    /// An identical copy of the goal.
    pub fn duplicate(&self) -> (r: FinancialGoal)
        ensures
            r == *self,
    {
        FinancialGoal {
            id: self.id,
            owner_id: self.owner_id,
            name: self.name.clone(),
            target_amount: self.target_amount,
            current_amount: self.current_amount,
            target_date: self.target_date,
            linked_account_id: self.linked_account_id,
            status: self.status,
            created_at: self.created_at,
            updated_at: self.updated_at,
        }
    }

    /// The same goal, linked to `account_id`.
    pub fn with_linked_account(self, account_id: AccountID) -> (r: FinancialGoal)
        ensures
            r == (FinancialGoal { linked_account_id: Some(account_id), ..self }),
    {
        FinancialGoal { linked_account_id: Some(account_id), ..self }
    }

    /// Records a contribution of `amount`.
    ///
    /// Only a goal in progress takes contributions (otherwise
    /// [`BudgetingError::InvariantViolation`]); the amount must be in the
    /// goal's currency and the new total must fit in 64 bits of cents
    /// (otherwise [`BudgetingError::Money`]). On success the amount is
    /// added and the goal becomes achieved once the target is reached; on
    /// failure the goal is left unchanged.
    pub fn contribute(&mut self, amount: Money) -> (r: Result<(), BudgetingError>)
        ensures
            r is Ok <==> can_contribute(*old(self), amount),
            r is Ok ==> *final(self) == contributed(*old(self), amount, final(self).updated_at),
            r is Err ==> *final(self) == *old(self),
            old(self).status != GoalStatus::InProgress ==> (r matches Err(
                BudgetingError::InvariantViolation(m),
            ) && m@ == "can only contribute to in-progress goals"@),
            old(self).status == GoalStatus::InProgress && amount.currency
                != old(self).current_amount.currency ==> r matches Err(
                BudgetingError::Money(MoneyError::CurrencyMismatch),
            ),
            old(self).status == GoalStatus::InProgress && amount.currency
                == old(self).current_amount.currency && !can_contribute(*old(self), amount)
                ==> r matches Err(BudgetingError::Money(MoneyError::Overflow)),
    {
        if self.status != GoalStatus::InProgress {
            return Err(
                BudgetingError::InvariantViolation(
                    String::from_str("can only contribute to in-progress goals"),
                ),
            );
        }
        let sum = match self.current_amount.checked_add(amount) {
            Ok(m) => m,
            Err(e) => {
                return Err(BudgetingError::Money(e));
            },
        };
        self.current_amount = sum;
        if sum.cents >= self.target_amount.cents {
            self.status = GoalStatus::Achieved;
        }
        self.updated_at = now_millis();
        Ok(())
    }

    /// Gives up a goal in progress.
    ///
    /// Any other goal is left unchanged and the answer is
    /// [`BudgetingError::InvariantViolation`].
    pub fn abandon(&mut self) -> (r: Result<(), BudgetingError>)
        ensures
            r is Ok <==> old(self).status == GoalStatus::InProgress,
            r is Ok ==> *final(self) == (FinancialGoal {
                status: GoalStatus::Abandoned,
                updated_at: final(self).updated_at,
                ..*old(self)
            }),
            r is Err ==> *final(self) == *old(self) && (r matches Err(
                BudgetingError::InvariantViolation(m),
            ) && m@ == "can only abandon in-progress goals"@),
    {
        if self.status != GoalStatus::InProgress {
            return Err(
                BudgetingError::InvariantViolation(
                    String::from_str("can only abandon in-progress goals"),
                ),
            );
        }
        self.status = GoalStatus::Abandoned;
        self.updated_at = now_millis();
        Ok(())
    }
}

} // verus!
