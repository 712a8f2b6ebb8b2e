//! Use cases of the credit card context.
//!
//! Each handler holds the ports it works with. The decisions of a use case
//! are verified functions of its module, taking what was read from the
//! ports and returning what is to be written or published.

pub mod installments;
pub mod card_access;
pub mod register_card;
pub mod register_purchase;
pub mod check_limit;
pub mod close_invoice;
pub mod pay_invoice;
