//! The raw statement row and the import event.

pub mod events;
pub mod raw_transaction;
