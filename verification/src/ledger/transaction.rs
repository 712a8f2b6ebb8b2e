//! Ledger transactions.
use crate::shared::clock::{now_millis, Timestamp};
use crate::shared::date::Date;
use crate::shared::errors::LedgerError;
use crate::shared::ids::{AccountID, CategoryID, TransactionID};
use crate::shared::money::Money;
use vstd::prelude::*;

verus! {

/// Direction of a transaction.
#[derive(Clone, Copy, Debug, PartialEq, Eq, Structural, Hash)]
pub enum TransactionType {
    Income,
    Expense,
    Transfer,
}

/// A movement of money on an account. The amount is always positive; the
/// type says in which direction it moves.
#[derive(Debug, Clone)]
pub struct Transaction {
    pub id: TransactionID,
    pub account_id: AccountID,
    pub tx_type: TransactionType,
    pub amount: Money,
    pub description: String,
    pub date: Date,
    pub category_id: Option<CategoryID>,
    pub created_at: Timestamp,
}

impl Transaction {
    /// Creates an uncategorised transaction stamped with the current time.
    ///
    /// Fails with [`LedgerError::InvariantViolation`] unless `amount` is
    /// positive.
    pub fn new(
        id: TransactionID,
        account_id: AccountID,
        tx_type: TransactionType,
        amount: Money,
        description: String,
        date: Date,
    ) -> (r: Result<Transaction, LedgerError>)
        ensures
            r is Ok <==> amount.cents > 0,
            r matches Ok(t) ==> t.id == id && t.account_id == account_id && t.tx_type == tx_type
                && t.amount == amount && t.description == description && t.date == date
                && t.category_id is None,
            r matches Err(e) ==> e is InvariantViolation,
    {
        if amount.cents <= 0 {
            return Err(LedgerError::InvariantViolation(String::from_str("transaction amount must be positive")));
        }
        Ok(
            Transaction {
                id,
                account_id,
                tx_type,
                amount,
                description,
                date,
                category_id: None,
                created_at: now_millis(),
            },
        )
    }

    /// The same transaction, filed under `category_id`.
    pub fn with_category(self, category_id: CategoryID) -> (r: Transaction)
        ensures
            r.category_id == Some(category_id),
            r.id == self.id && r.account_id == self.account_id && r.tx_type == self.tx_type
                && r.amount == self.amount && r.description == self.description && r.date
                == self.date && r.created_at == self.created_at,
    {
        Transaction { category_id: Some(category_id), ..self }
    }

    /// Checks the transaction's invariants: a positive amount, and a
    /// category on every income or expense.
    pub fn validate(&self) -> (r: Result<(), LedgerError>)
        ensures
            r is Ok <==> self.amount.cents > 0 && (self.tx_type == TransactionType::Transfer
                || self.category_id is Some),
    {
        if self.amount.cents <= 0 {
            return Err(LedgerError::InvariantViolation(String::from_str("transaction amount must be positive")));
        }
        if self.tx_type != TransactionType::Transfer && self.category_id.is_none() {
            return Err(
                LedgerError::InvariantViolation(
                    String::from_str("income and expense transactions need a category"),
                ),
            );
        }
        Ok(())
    }
}

} // verus!
