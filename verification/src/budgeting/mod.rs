//! Budgets per category and period, and savings goals.

pub mod application;
pub mod domain;
pub mod facade;
