//! Events published by the ledger.
use crate::ledger::transaction::TransactionType;
use crate::shared::clock::Timestamp;
use crate::shared::date::Date;
use crate::shared::ids::{AccountID, CategoryID, TransactionID};
use crate::shared::money::Money;
use vstd::prelude::*;

verus! {

/// A transaction was recorded on an account.
#[derive(Debug, Clone, Copy)]
pub struct TransactionRecorded {
    pub transaction_id: TransactionID,
    pub account_id: AccountID,
    pub tx_type: TransactionType,
    pub amount: Money,
    pub category_id: Option<CategoryID>,
    pub date: Date,
    pub timestamp: Timestamp,
}

impl TransactionRecorded {
    /// When the event happened.
    pub fn timestamp(&self) -> (r: Timestamp)
        ensures
            r == self.timestamp,
    {
        self.timestamp
    }

    /// Name under which the event is published.
    pub fn event_type(&self) -> (r: &'static str)
        ensures
            r@ == "TransactionRecorded"@,
    {
        proof {
            reveal_strlit("TransactionRecorded");
        }
        "TransactionRecorded"
    }
}

} // verus!
