//! Events published by the budgeting context.
use crate::shared::clock::Timestamp;
use crate::shared::ids::{BudgetID, CategoryID, GoalID};
use crate::shared::money::Money;
use vstd::prelude::*;

verus! {

/// A budget was defined.
#[derive(Debug, Clone, Copy)]
pub struct BudgetDefined {
    pub budget_id: BudgetID,
    pub category_id: CategoryID,
    pub planned_amount: Money,
    pub timestamp: Timestamp,
}

/// Spending went over a budget.
#[derive(Debug, Clone, Copy)]
pub struct BudgetExceeded {
    pub budget_id: BudgetID,
    pub category_id: CategoryID,
    pub planned_amount: Money,
    pub spent_amount: Money,
    pub timestamp: Timestamp,
}

/// A contribution was recorded on a goal.
#[derive(Debug, Clone, Copy)]
pub struct GoalContributed {
    pub goal_id: GoalID,
    pub amount: Money,
    pub timestamp: Timestamp,
}

/// A goal reached its target.
#[derive(Debug, Clone, Copy)]
pub struct GoalAchieved {
    pub goal_id: GoalID,
    pub timestamp: Timestamp,
}

impl BudgetDefined {
    /// When the event happened.
    pub fn timestamp(&self) -> (r: Timestamp)
        ensures
            r == self.timestamp,
    {
        self.timestamp
    }

    /// Name under which the event is published.
    pub fn event_type(&self) -> (r: &'static str)
        ensures
            r@ == "BudgetDefined"@,
    {
        proof {
            reveal_strlit("BudgetDefined");
        }
        "BudgetDefined"
    }
}

impl BudgetExceeded {
    /// When the event happened.
    pub fn timestamp(&self) -> (r: Timestamp)
        ensures
            r == self.timestamp,
    {
        self.timestamp
    }

    /// Name under which the event is published.
    pub fn event_type(&self) -> (r: &'static str)
        ensures
            r@ == "BudgetExceeded"@,
    {
        proof {
            reveal_strlit("BudgetExceeded");
        }
        "BudgetExceeded"
    }
}

impl GoalContributed {
    /// When the event happened.
    pub fn timestamp(&self) -> (r: Timestamp)
        ensures
            r == self.timestamp,
    {
        self.timestamp
    }

    /// Name under which the event is published.
    pub fn event_type(&self) -> (r: &'static str)
        ensures
            r@ == "GoalContributed"@,
    {
        proof {
            reveal_strlit("GoalContributed");
        }
        "GoalContributed"
    }
}

impl GoalAchieved {
    /// When the event happened.
    pub fn timestamp(&self) -> (r: Timestamp)
        ensures
            r == self.timestamp,
    {
        self.timestamp
    }

    /// Name under which the event is published.
    pub fn event_type(&self) -> (r: &'static str)
        ensures
            r@ == "GoalAchieved"@,
    {
        proof {
            reveal_strlit("GoalAchieved");
        }
        "GoalAchieved"
    }
}

} // verus!
