//! Bills reminder: scheduling, payment tracking and the calendar view of
//! recurring and one-time bills.

pub mod application;
pub mod domain;
pub mod facade;
pub mod projections;
