//! The budget and goal aggregates and their events.

pub mod budget;
pub mod events;
pub mod goal;
