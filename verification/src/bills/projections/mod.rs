//! Read models of the bills context.

pub mod bill_calendar;
pub mod day_totals;
