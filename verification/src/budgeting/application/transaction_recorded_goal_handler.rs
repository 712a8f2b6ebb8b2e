//! Ledger integration: income on a linked account feeds savings goals.
use crate::budgeting::application::contribute_to_goal::{
    contribute_with_events, records_contribution, GoalContribution,
};
use crate::budgeting::domain::goal::{can_contribute, FinancialGoal, GoalStatus};
use crate::ledger::events::TransactionRecorded;
use crate::ledger::transaction::TransactionType;
use crate::shared::errors::BudgetingError;
use crate::shared::money::Money;
use std::sync::Arc;
use vstd::prelude::*;

verus! {

/// Handler that reacts to recorded income by contributing its amount to
/// every goal in progress linked to the account.
pub struct TransactionRecordedGoalHandler<G, P> {
    pub goal_repository: Arc<G>,
    pub event_publisher: Arc<P>,
}

/// The contributions `out` record, in order, a contribution of `amount` to
/// each of the first goals of `active`.
pub open spec fn contributions_recorded(out: Seq<GoalContribution>, active: Seq<FinancialGoal>, amount: Money) -> bool {
    forall|j: int| 0 <= j < out.len() ==> records_contribution(#[trigger] out[j], active[j], amount)
}

/// The goal is still in progress.
pub open spec fn in_progress(g: FinancialGoal) -> bool {
    g.status == GoalStatus::InProgress
}

impl<G, P> TransactionRecordedGoalHandler<G, P> {
    /// Creates a new handler with the given dependencies.
    pub fn new(goal_repository: Arc<G>, event_publisher: Arc<P>) -> (r: Self)
        ensures
            r.goal_repository == goal_repository,
            r.event_publisher == event_publisher,
    {
        TransactionRecordedGoalHandler { goal_repository, event_publisher }
    }

    /// The contributions that the transaction makes to the goals linked to
    /// its account (`goals`), in order, and the error that stopped them.
    ///
    /// Only income contributes. Goals that are no longer in progress are
    /// passed over; the others each receive the transaction's amount, until
    /// one of them refuses it: the contributions before it are returned
    /// with that error, and the goals after it are not touched.
    pub fn contributions(event: &TransactionRecorded, goals: Vec<FinancialGoal>) -> (r: (Vec<GoalContribution>, Option<BudgetingError>))
        ensures
            event.tx_type != TransactionType::Income ==> r.0@.len() == 0 && r.1 is None,
            event.tx_type == TransactionType::Income ==> ({
                let active = goals@.filter(|g: FinancialGoal| in_progress(g));
                &&& r.0@.len() <= active.len()
                &&& forall|i: int|
                    0 <= i < r.0@.len() ==> records_contribution(#[trigger] r.0@[i], active[i], event.amount)
                &&& r.1 is None <==> r.0@.len() == active.len()
                &&& r.1 matches Some(e) ==> !can_contribute(active[r.0@.len() as int], event.amount)
                    && e is Money
            }),
    {
        let mut out: Vec<GoalContribution> = Vec::new();
        if event.tx_type != TransactionType::Income {
            return (out, None);
        }
        let ghost pred = |g: FinancialGoal| in_progress(g);
        let ghost all = goals@;
        let ghost active = all.filter(pred);
        let n = goals.len();
        let mut i: usize = 0;
        while i < n
            invariant
                pred == (|g: FinancialGoal| in_progress(g)),
                event.tx_type == TransactionType::Income,
                all.len() == n,
                goals@ == all,
                active == all.filter(pred),
                0 <= i <= n,
                out@.len() == all.take(i as int).filter(pred).len(),
                contributions_recorded(out@, active, event.amount),
            decreases n - i,
        {
            let ghost before = all.take(i as int);
            let ghost after = all.take(i + 1);
            proof {
                assert(after =~= before.push(all[i as int]));
                before.lemma_filter_push(all[i as int], pred);
                Seq::filter_distributes_over_add(after, all.skip(i + 1), pred);
                assert(after + all.skip(i + 1) =~= all);
                all.skip(i + 1).lemma_filter_len(pred);
            }
            let g = goals[i].duplicate();
            if g.status == GoalStatus::InProgress {
                proof {
                    assert(pred(all[i as int]));
                    assert(after.filter(pred) == before.filter(pred).push(all[i as int]));
                    assert(after.filter(pred)[out@.len() as int] == all[i as int]);
                    assert(active == after.filter(pred) + all.skip(i + 1).filter(pred));
                    assert(active[out@.len() as int] == all[i as int]);
                    assert(out@.len() < active.len());
                }
                match contribute_with_events(g, event.amount) {
                    Ok(c) => {
                        let ghost old_out = out@;
                        out.push(c);
                        assert forall|j: int| 0 <= j < out@.len() implies records_contribution(
                            #[trigger] out@[j],
                            active[j],
                            event.amount,
                        ) by {
                            if j < old_out.len() {
                                assert(out@[j] == old_out[j]);
                            }
                        }
                    },
                    Err(e) => {
                        return (out, Some(e));
                    },
                }
            }
            i = i + 1;
        }
        proof {
            assert(all.take(n as int) =~= all);
        }
        (out, None)
    }
}

} // verus!
