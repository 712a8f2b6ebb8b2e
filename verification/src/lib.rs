//! Personal finance core: bills, budgets, credit cards, identity and
//! statement importing, with the domain rules of each context verified.
//!
//! Every context is split the same way: `domain` holds the aggregates and
//! their state machines, `application` holds the decisions that a use case
//! makes once the data it needs has been loaded (what to persist, which
//! events to publish, which error to answer with), and the loading and
//! saving itself is left to the caller.

pub mod bills;
pub mod budgeting;
pub mod credit_card;
pub mod identity;
pub mod importing;
pub mod ledger;
pub mod provider;
pub mod shared;
