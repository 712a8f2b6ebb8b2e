//! Use cases of the bills context.
//!
//! Each handler holds the ports it works with. The decisions of a use case
//! are verified functions of its module, taking what was read from the
//! ports and returning what is to be written or published.

pub mod bill_paid_handler;
pub mod get_bills_by_month;
pub mod get_daily_bill_totals;
pub mod get_upcoming_bills;
pub mod mark_bill_paid;
pub mod schedule_bill;
