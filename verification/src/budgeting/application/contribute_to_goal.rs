//! Command: contribute to a savings goal.
use crate::budgeting::domain::events::{GoalAchieved, GoalContributed};
use crate::budgeting::domain::goal::{can_contribute, contributed, FinancialGoal, GoalStatus};
use crate::shared::clock::now_millis;
use crate::shared::errors::BudgetingError;
use crate::shared::ids::GoalID;
use crate::shared::money::Money;
use std::sync::Arc;
use vstd::prelude::*;

verus! {

/// Command to contribute toward a financial goal.
#[derive(Debug, Clone, Copy)]
pub struct ContributeToGoalCommand {
    pub goal_id: GoalID,
    pub amount: Money,
}

/// A contribution recorded on a goal: the goal after it, and the events
/// that announce it.
#[derive(Debug, Clone)]
pub struct GoalContribution {
    pub goal: FinancialGoal,
    pub contributed: GoalContributed,
    /// Present when the contribution made the goal reach its target.
    pub achieved: Option<GoalAchieved>,
}

/// `c` records the contribution of `amount` to the goal `g` (which takes
/// it).
pub open spec fn records_contribution(c: GoalContribution, g: FinancialGoal, amount: Money) -> bool {
    &&& can_contribute(g, amount)
    &&& c.goal == contributed(g, amount, c.goal.updated_at)
    &&& c.contributed.goal_id == g.id
    &&& c.contributed.amount == amount
    &&& (c.achieved is Some <==> c.goal.status == GoalStatus::Achieved)
    &&& (c.achieved matches Some(a) ==> a.goal_id == g.id)
}

/// Records a contribution of `amount` to the goal `goal` (see
/// [`FinancialGoal::contribute`]), with its events.
pub fn contribute_with_events(goal: FinancialGoal, amount: Money) -> (r: Result<GoalContribution, BudgetingError>)
    ensures
        r is Ok <==> can_contribute(goal, amount),
        r matches Ok(c) ==> records_contribution(c, goal, amount),
        goal.status != GoalStatus::InProgress ==> r matches Err(BudgetingError::InvariantViolation(_)),
        goal.status == GoalStatus::InProgress && !can_contribute(goal, amount) ==> r matches Err(
            BudgetingError::Money(_),
        ),
{
    let mut goal = goal;
    let goal_id = goal.id;
    let was_in_progress = goal.status == GoalStatus::InProgress;
    match goal.contribute(amount) {
        Ok(()) => {},
        Err(e) => {
            return Err(e);
        },
    }
    let contributed = GoalContributed { goal_id, amount, timestamp: now_millis() };
    let achieved = if was_in_progress && goal.status == GoalStatus::Achieved {
        Some(GoalAchieved { goal_id, timestamp: now_millis() })
    } else {
        None
    };
    Ok(GoalContribution { goal, contributed, achieved })
}

/// Handler that records contributions to goals.
pub struct ContributeToGoalHandler<G, P> {
    pub goal_repository: Arc<G>,
    pub event_publisher: Arc<P>,
}

impl<G, P> ContributeToGoalHandler<G, P> {
    /// Creates a new handler with the given dependencies.
    pub fn new(goal_repository: Arc<G>, event_publisher: Arc<P>) -> (r: Self)
        ensures
            r.goal_repository == goal_repository,
            r.event_publisher == event_publisher,
    {
        ContributeToGoalHandler { goal_repository, event_publisher }
    }

    /// Records the command's contribution on the goal found under its
    /// identifier (`found`).
    ///
    /// Answers [`BudgetingError::GoalNotFound`] when there is no such goal;
    /// otherwise as [`FinancialGoal::contribute`].
    pub fn contribute(found: Option<FinancialGoal>, cmd: ContributeToGoalCommand) -> (r: Result<GoalContribution, BudgetingError>)
        ensures
            found is None ==> (r matches Err(BudgetingError::GoalNotFound(id)) && id == cmd.goal_id),
            found matches Some(g) ==> (r is Ok <==> can_contribute(g, cmd.amount)),
            found matches Some(g) ==> (r matches Ok(c) ==> records_contribution(c, g, cmd.amount)),
            found matches Some(g) ==> (g.status != GoalStatus::InProgress ==> r matches Err(
                BudgetingError::InvariantViolation(_),
            )),
    {
        match found {
            Some(g) => contribute_with_events(g, cmd.amount),
            None => Err(BudgetingError::GoalNotFound(cmd.goal_id)),
        }
    }
}

} // verus!
