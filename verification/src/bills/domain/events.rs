//! Events published by the bills context.
use crate::shared::clock::Timestamp;
use crate::shared::date::Date;
use crate::shared::ids::{AccountID, BillID, CategoryID};
use crate::shared::money::Money;
use vstd::prelude::*;

verus! {

/// Event emitted when a new bill is scheduled.
#[derive(Debug, Clone)]
pub struct BillScheduled {
    pub bill_id: BillID,
    pub name: String,
    pub amount: Option<Money>,
    pub due_date: Date,
    pub timestamp: Timestamp,
}

/// Event emitted when a bill is marked as paid.
#[derive(Debug, Clone, Copy)]
pub struct BillPaid {
    pub bill_id: BillID,
    pub amount: Option<Money>,
    pub account_id: AccountID,
    pub category_id: CategoryID,
    pub timestamp: Timestamp,
}

/// Event emitted when a bill becomes overdue.
#[derive(Debug, Clone, Copy)]
pub struct BillOverdue {
    pub bill_id: BillID,
    pub due_date: Date,
    pub timestamp: Timestamp,
}

/// Event emitted when a bill is approaching its due date.
#[derive(Debug, Clone, Copy)]
pub struct BillDueSoon {
    pub bill_id: BillID,
    pub due_date: Date,
    pub days_until_due: i64,
    pub timestamp: Timestamp,
}

impl BillScheduled {
    /// When the event happened.
    pub fn timestamp(&self) -> (r: Timestamp)
        ensures
            r == self.timestamp,
    {
        self.timestamp
    }

    /// Name under which the event is published.
    pub fn event_type(&self) -> (r: &'static str)
        ensures
            r@ == "BillScheduled"@,
    {
        proof {
            reveal_strlit("BillScheduled");
        }
        "BillScheduled"
    }
}

impl BillPaid {
    /// When the event happened.
    pub fn timestamp(&self) -> (r: Timestamp)
        ensures
            r == self.timestamp,
    {
        self.timestamp
    }

    /// Name under which the event is published.
    pub fn event_type(&self) -> (r: &'static str)
        ensures
            r@ == "BillPaid"@,
    {
        proof {
            reveal_strlit("BillPaid");
        }
        "BillPaid"
    }
}

impl BillOverdue {
    /// When the event happened.
    pub fn timestamp(&self) -> (r: Timestamp)
        ensures
            r == self.timestamp,
    {
        self.timestamp
    }

    /// Name under which the event is published.
    pub fn event_type(&self) -> (r: &'static str)
        ensures
            r@ == "BillOverdue"@,
    {
        proof {
            reveal_strlit("BillOverdue");
        }
        "BillOverdue"
    }
}

impl BillDueSoon {
    /// When the event happened.
    pub fn timestamp(&self) -> (r: Timestamp)
        ensures
            r == self.timestamp,
    {
        self.timestamp
    }

    /// Name under which the event is published.
    pub fn event_type(&self) -> (r: &'static str)
        ensures
            r@ == "BillDueSoon"@,
    {
        proof {
            reveal_strlit("BillDueSoon");
        }
        "BillDueSoon"
    }
}

} // verus!
