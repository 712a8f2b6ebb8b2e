//! The bill aggregate and its events.

pub mod bill;
pub mod events;
