//! The ledger entities that the other contexts read and create: accounts,
//! transactions and the event announcing a recorded transaction.

pub mod account;
pub mod events;
pub mod transaction;
