//! How much of a card's limit is used and left.
use crate::credit_card::domain::card::CreditCard;
use crate::credit_card::domain::invoice::{total_defined, Invoice};
use crate::shared::errors::CreditCardError;
use crate::shared::money::Money;
use std::sync::Arc;
use vstd::prelude::*;

verus! {

/// Service computing how much of a card's limit is in use: the total of the
/// card's open invoice.
pub struct CreditCardService<I> {
    pub invoice_repository: Arc<I>,
}

impl<I> CreditCardService<I> {
    /// Creates a new service with the given invoice repository.
    pub fn new(invoice_repository: Arc<I>) -> (r: Self)
        ensures
            r.invoice_repository == invoice_repository,
    {
        CreditCardService { invoice_repository }
    }

    /// The used and the available part of the card's limit, given the
    /// card's open invoice (`open`): the used part is the invoice's total,
    /// zero in the limit's currency when no invoice is open; the available
    /// part is the limit minus the used part (see
    /// [`CreditCard::available_limit`]).
    pub fn usage(card: &CreditCard, open: Option<Invoice>) -> (r: Result<(Money, Money), CreditCardError>)
        requires
            open matches Some(inv) ==> total_defined(inv.purchases@),
        ensures
            ({
                let used = match open {
                    Some(inv) => inv.spec_total(),
                    None => Money { cents: 0, currency: card.limit.currency },
                };
                &&& r is Ok <==> used.currency == card.limit.currency && i64::MIN <= card.limit.cents
                    - used.cents <= i64::MAX
                &&& r matches Ok(u) ==> u.0 == used && u.1 == (Money {
                    cents: (card.limit.cents - used.cents) as i64,
                    currency: card.limit.currency,
                })
                &&& r matches Err(e) ==> e is InvariantViolation
            }),
    {
        let used = match open {
            Some(inv) => inv.total(),
            None => Money::zero(card.limit.currency),
        };
        match card.available_limit(used) {
            Ok(available) => Ok((used, available)),
            Err(e) => Err(e),
        }
    }
}

} // verus!
