//! The check that every command on a card starts with.
use crate::credit_card::domain::card::CreditCard;
use crate::shared::errors::CreditCardError;
use crate::shared::ids::{CreditCardID, UserID};
use vstd::prelude::*;

verus! {

/// The card looked up under `credit_card_id` (`found`), when it exists and
/// belongs to `owner_id`.
///
/// Answers [`CreditCardError::CreditCardNotFound`] when there is no such
/// card and [`CreditCardError::InvariantViolation`] when it belongs to
/// someone else.
pub fn owned_card(found: Option<CreditCard>, credit_card_id: CreditCardID, owner_id: UserID) -> (r: Result<CreditCard, CreditCardError>)
    ensures
        found is None ==> (r matches Err(CreditCardError::CreditCardNotFound(id)) && id
            == credit_card_id),
        found matches Some(c) ==> (c.owner_id != owner_id ==> (r matches Err(
            CreditCardError::InvariantViolation(m),
        ) && m@ == "credit card does not belong to owner"@)),
        found matches Some(c) ==> (c.owner_id == owner_id ==> r == Ok::<CreditCard, CreditCardError>(c)),
{
    let card = match found {
        Some(c) => c,
        None => {
            return Err(CreditCardError::CreditCardNotFound(credit_card_id));
        },
    };
    if card.owner_id != owner_id {
        return Err(
            CreditCardError::InvariantViolation(
                String::from_str("credit card does not belong to owner"),
            ),
        );
    }
    Ok(card)
}

} // verus!
