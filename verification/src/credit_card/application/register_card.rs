//! Command: register a credit card.
use crate::credit_card::domain::card::CreditCard;
use crate::shared::ids::{CreditCardID, Principal};
use crate::provider::id::IdGenerator;
use crate::shared::money::Money;
use std::sync::Arc;
use vstd::prelude::*;

verus! {

/// Command to register a new credit card.
#[derive(Debug, Clone)]
pub struct RegisterCardCommand {
    pub principal: Principal,
    pub name: String,
    pub brand: String,
    pub limit: Money,
    pub closing_day: u32,
    pub due_day: u32,
}

/// Handler that registers credit cards.
pub struct RegisterCardHandler<C, I> {
    pub credit_card_repository: Arc<C>,
    pub id_generator: Arc<I>,
}

impl<C, I> RegisterCardHandler<C, I> {
    /// Creates a new handler with the given dependencies.
    pub fn new(credit_card_repository: Arc<C>, id_generator: Arc<I>) -> (r: Self)
        ensures
            r.credit_card_repository == credit_card_repository,
            r.id_generator == id_generator,
    {
        RegisterCardHandler { credit_card_repository, id_generator }
    }

}

impl<C, I: IdGenerator> RegisterCardHandler<C, I> {
    /// The card that the command registers under a fresh identifier, owned
    /// by the command's principal.
    pub fn card(&self, cmd: RegisterCardCommand) -> (r: CreditCard)
        ensures
            r.owner_id == cmd.principal.user_id,
            r.name == cmd.name,
            r.brand == cmd.brand,
            r.limit == cmd.limit,
            r.closing_day == cmd.closing_day,
            r.due_day == cmd.due_day,
            self.id_generator.issues(r.id.0),
    {
        let id = CreditCardID(self.id_generator.new_id());
        CreditCard::new(
            id,
            cmd.principal.user_id,
            cmd.name,
            cmd.brand,
            cmd.limit,
            cmd.closing_day,
            cmd.due_day,
        )
    }
}

} // verus!
