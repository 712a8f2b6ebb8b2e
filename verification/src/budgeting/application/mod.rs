//! Use cases of the budgeting context.
//!
//! Each handler holds the ports it works with. The decisions of a use case
//! are verified functions of its module, taking what was read from the
//! ports and returning what is to be written or published.

pub mod annual_budget;
pub mod budget_progress;
pub mod contribute_to_goal;
pub mod create_goal;
pub mod define_budget;
pub mod transaction_recorded_budget_handler;
pub mod transaction_recorded_goal_handler;
