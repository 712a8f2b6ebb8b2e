//! The credit card aggregate.
use crate::shared::clock::{now_millis, Timestamp};
use crate::shared::errors::CreditCardError;
use crate::shared::ids::{CreditCardID, UserID};
use crate::shared::money::Money;
use vstd::prelude::*;

verus! {

/// A credit card with its spending limit and billing days.
#[derive(Debug, Clone)]
pub struct CreditCard {
    pub id: CreditCardID,
    pub owner_id: UserID,
    pub name: String,
    pub brand: String,
    pub limit: Money,
    /// Day of the month on which the invoice closes.
    pub closing_day: u32,
    /// Day of the month on which the invoice is due.
    pub due_day: u32,
    pub created_at: Timestamp,
}

impl CreditCard {
    /// Creates a card, stamped with the current time.
    pub fn new(
        id: CreditCardID,
        owner_id: UserID,
        name: String,
        brand: String,
        limit: Money,
        closing_day: u32,
        due_day: u32,
    ) -> (r: CreditCard)
        ensures
            r.id == id,
            r.owner_id == owner_id,
            r.name == name,
            r.brand == brand,
            r.limit == limit,
            r.closing_day == closing_day,
            r.due_day == due_day,
    {
        CreditCard { id, owner_id, name, brand, limit, closing_day, due_day, created_at: now_millis() }
    }

    /// What is left of the limit once `used` is spent: `limit - used`,
    /// negative when the limit is exceeded.
    ///
    /// Fails with [`CreditCardError::InvariantViolation`] when `used` is in
    /// another currency than the limit or the difference does not fit in 64
    /// bits of cents.
    pub fn available_limit(&self, used: Money) -> (r: Result<Money, CreditCardError>)
        ensures
            r is Ok <==> used.currency == self.limit.currency && i64::MIN <= self.limit.cents
                - used.cents <= i64::MAX,
            r matches Ok(m) ==> m.cents == self.limit.cents - used.cents && m.currency
                == self.limit.currency,
            r matches Err(e) ==> (e matches CreditCardError::InvariantViolation(msg) && msg@
                == "used amount exceeds limit"@),
    {
        match self.limit.checked_sub(used) {
            Ok(m) => Ok(m),
            Err(_) => Err(
                CreditCardError::InvariantViolation(String::from_str("used amount exceeds limit")),
            ),
        }
    }
}

} // verus!
