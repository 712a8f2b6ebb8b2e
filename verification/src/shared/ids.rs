//! Typed identifiers. Each wraps a 128-bit value (the bits of a UUID).
use crate::shared::clock::random_u128;
use vstd::prelude::*;

verus! {

/// Identifies a user.
#[derive(Clone, Copy, Debug, PartialEq, Eq, Structural, Hash, PartialOrd, Ord)]
pub struct UserID(pub u128);

/// Identifies a ledger account.
#[derive(Clone, Copy, Debug, PartialEq, Eq, Structural, Hash, PartialOrd, Ord)]
pub struct AccountID(pub u128);

/// Identifies a ledger transaction.
#[derive(Clone, Copy, Debug, PartialEq, Eq, Structural, Hash, PartialOrd, Ord)]
pub struct TransactionID(pub u128);

/// Identifies a spending category.
#[derive(Clone, Copy, Debug, PartialEq, Eq, Structural, Hash, PartialOrd, Ord)]
pub struct CategoryID(pub u128);

/// Identifies a bill.
#[derive(Clone, Copy, Debug, PartialEq, Eq, Structural, Hash, PartialOrd, Ord)]
pub struct BillID(pub u128);

/// Identifies a budget.
#[derive(Clone, Copy, Debug, PartialEq, Eq, Structural, Hash, PartialOrd, Ord)]
pub struct BudgetID(pub u128);

/// Identifies a financial goal.
#[derive(Clone, Copy, Debug, PartialEq, Eq, Structural, Hash, PartialOrd, Ord)]
pub struct GoalID(pub u128);

/// Identifies a credit card.
#[derive(Clone, Copy, Debug, PartialEq, Eq, Structural, Hash, PartialOrd, Ord)]
pub struct CreditCardID(pub u128);

/// Identifies a credit card invoice.
#[derive(Clone, Copy, Debug, PartialEq, Eq, Structural, Hash, PartialOrd, Ord)]
pub struct InvoiceID(pub u128);

/// Identifies a credit card purchase.
#[derive(Clone, Copy, Debug, PartialEq, Eq, Structural, Hash, PartialOrd, Ord)]
pub struct PurchaseID(pub u128);

/// Links the installments of one purchase.
#[derive(Clone, Copy, Debug, PartialEq, Eq, Structural, Hash, PartialOrd, Ord)]
pub struct InstallmentGroupID(pub u128);

impl UserID {
    /// A fresh random identifier.
    pub fn new() -> UserID {
        UserID(random_u128())
    }
}

impl AccountID {
    /// A fresh random identifier.
    pub fn new() -> AccountID {
        AccountID(random_u128())
    }
}

impl TransactionID {
    /// A fresh random identifier.
    pub fn new() -> TransactionID {
        TransactionID(random_u128())
    }
}

impl CategoryID {
    /// A fresh random identifier.
    pub fn new() -> CategoryID {
        CategoryID(random_u128())
    }
}

impl BillID {
    /// A fresh random identifier.
    pub fn new() -> BillID {
        BillID(random_u128())
    }
}

impl BudgetID {
    /// A fresh random identifier.
    pub fn new() -> BudgetID {
        BudgetID(random_u128())
    }
}

impl GoalID {
    /// A fresh random identifier.
    pub fn new() -> GoalID {
        GoalID(random_u128())
    }
}

impl CreditCardID {
    /// A fresh random identifier.
    pub fn new() -> CreditCardID {
        CreditCardID(random_u128())
    }
}

impl InvoiceID {
    /// A fresh random identifier.
    pub fn new() -> InvoiceID {
        InvoiceID(random_u128())
    }
}

impl PurchaseID {
    /// A fresh random identifier.
    pub fn new() -> PurchaseID {
        PurchaseID(random_u128())
    }
}

impl InstallmentGroupID {
    /// A fresh random identifier.
    pub fn new() -> InstallmentGroupID {
        InstallmentGroupID(random_u128())
    }
}

/// The authenticated user on whose behalf a command runs.
#[derive(Clone, Copy, Debug, PartialEq, Eq, Structural, Hash)]
pub struct Principal {
    pub user_id: UserID,
}

impl Principal {
    /// The principal acting as `user_id`.
    pub fn new(user_id: UserID) -> (r: Principal)
        ensures
            r.user_id == user_id,
    {
        Principal { user_id }
    }
}

} // verus!
