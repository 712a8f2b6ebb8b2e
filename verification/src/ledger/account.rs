//! Ledger accounts.
use crate::shared::errors::LedgerError;
use crate::shared::ids::{AccountID, UserID};
use crate::shared::money::{Currency, Money};
use vstd::prelude::*;

verus! {

/// Kind of a ledger account.
#[derive(Clone, Copy, Debug, PartialEq, Eq, Structural, Hash)]
pub enum AccountType {
    Checking,
    Savings,
    Cash,
    Investment,
}

/// A ledger account owned by a user, kept in one currency.
#[derive(Debug, Clone)]
pub struct Account {
    pub id: AccountID,
    pub owner_id: UserID,
    pub name: String,
    pub account_type: AccountType,
    pub currency: Currency,
    pub opening_balance: Money,
}

impl Account {
    /// Creates an account.
    ///
    /// Fails with [`LedgerError::InvariantViolation`] when `name` is empty or
    /// when the opening balance is not in the account's currency.
    pub fn new(
        id: AccountID,
        owner_id: UserID,
        name: String,
        account_type: AccountType,
        currency: Currency,
        opening_balance: Money,
    ) -> (r: Result<Account, LedgerError>)
        ensures
            r is Ok <==> name@.len() > 0 && opening_balance.currency == currency,
            r matches Ok(a) ==> a.id == id && a.owner_id == owner_id && a.name@ == name@
                && a.account_type == account_type && a.currency == currency && a.opening_balance
                == opening_balance,
            r matches Err(e) ==> e is InvariantViolation,
    {
        if name.as_str().is_empty() {
            return Err(LedgerError::InvariantViolation(String::from_str("account name must not be empty")));
        }
        if opening_balance.currency != currency {
            return Err(
                LedgerError::InvariantViolation(
                    String::from_str("opening balance currency must match the account currency"),
                ),
            );
        }
        Ok(Account { id, owner_id, name, account_type, currency, opening_balance })
    }

    /// The account's currency.
    pub fn currency(&self) -> (r: Currency)
        ensures
            r == self.currency,
    {
        self.currency
    }
}

} // verus!
