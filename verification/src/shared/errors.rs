//! Error types of the bounded contexts.
use crate::shared::ids::{BillID, BudgetID, CreditCardID, GoalID, InvoiceID};
use crate::shared::money::MoneyError;
use vstd::prelude::*;

verus! {

/// Failure reported by a persistence adapter.
#[derive(Debug, Clone)]
pub enum RepositoryError {
    /// The storage backend failed.
    Storage(String),
}

impl RepositoryError {
    /// The text of [`RepositoryError::message`]: "storage error: " and the
    /// backend's own words.
    pub open spec fn message_spec(&self) -> Seq<char> {
        match self {
            RepositoryError::Storage(m) => "storage error: "@ + m@,
        }
    }

    /// Human-readable description of the error.
    pub fn message(&self) -> (r: String)
        ensures
            r@ == self.message_spec(),
    {
        match self {
            RepositoryError::Storage(m) => {
                let mut s = String::from_str("storage error: ");
                s.append(m.as_str());
                s
            },
        }
    }
}

/// Failure reported by an event publisher.
#[derive(Debug, Clone)]
pub enum PublishError {
    /// The event could not be delivered.
    Failed(String),
}

/// Errors of the bills context.
#[derive(Debug, Clone)]
pub enum BillsError {
    /// No bill has the given identifier.
    BillNotFound(BillID),
    /// A business rule was violated.
    InvariantViolation(String),
    /// Amounts could not be combined.
    Money(MoneyError),
    /// A ledger entity refused the operation.
    Ledger(LedgerError),
    /// Persistence failed.
    Repository(RepositoryError),
    /// Publishing an event failed.
    Publish(PublishError),
}

/// Errors of the budgeting context.
#[derive(Debug, Clone)]
pub enum BudgetingError {
    /// No budget has the given identifier.
    BudgetNotFound(BudgetID),
    /// No goal has the given identifier.
    GoalNotFound(GoalID),
    /// An amount is not acceptable (for example not positive).
    InvalidAmount(String),
    /// A business rule was violated.
    InvariantViolation(String),
    /// Amounts could not be combined.
    Money(MoneyError),
    /// Persistence failed.
    Repository(RepositoryError),
    /// Publishing an event failed.
    Publish(PublishError),
}

/// Errors of the credit card context.
#[derive(Debug, Clone)]
pub enum CreditCardError {
    /// No credit card has the given identifier.
    CreditCardNotFound(CreditCardID),
    /// No invoice has the given identifier.
    InvoiceNotFound(InvoiceID),
    /// The invoice is not open.
    InvoiceNotOpen,
    /// A business rule was violated.
    InvariantViolation(String),
    /// Amounts could not be combined.
    Money(MoneyError),
    /// Persistence failed.
    Repository(RepositoryError),
    /// Publishing an event failed.
    Publish(PublishError),
}

/// Errors of the ledger entities.
#[derive(Debug, Clone)]
pub enum LedgerError {
    /// A business rule was violated.
    InvariantViolation(String),
}

impl LedgerError {
    /// Human-readable description of the error.
    pub open spec fn message_spec(&self) -> Seq<char> {
        match self {
            LedgerError::InvariantViolation(m) => "invariant violation: "@ + m@,
        }
    }

    /// Human-readable description of the error.
    pub fn message(&self) -> (r: String)
        ensures
            r@ == self.message_spec(),
    {
        match self {
            LedgerError::InvariantViolation(m) => {
                let mut s = String::from_str("invariant violation: ");
                s.append(m.as_str());
                s
            },
        }
    }
}

/// Errors of the importing context.
#[derive(Debug, Clone)]
pub enum ImportError {
    /// Something the command names does not exist.
    NotFound(String),
    /// The principal may not act on the target account.
    Forbidden(String),
    /// A business rule was violated.
    InvariantViolation(String),
    /// Persistence failed.
    Repository(RepositoryError),
    /// Publishing an event failed.
    Publish(PublishError),
}

} // verus!
