//! Events published by the importing context.
use crate::shared::clock::Timestamp;
use crate::shared::ids::AccountID;
use vstd::prelude::*;

verus! {

/// A batch of raw transactions was confirmed and imported.
#[derive(Debug, Clone, Copy)]
pub struct TransactionsImported {
    /// The account that received the imported transactions.
    pub account_id: AccountID,
    /// Number of transactions imported in the batch.
    pub count: usize,
    /// When the import happened.
    pub timestamp: Timestamp,
}

impl TransactionsImported {
    /// When the event happened.
    pub fn timestamp(&self) -> (r: Timestamp)
        ensures
            r == self.timestamp,
    {
        self.timestamp
    }

    /// Name under which the event is published.
    pub fn event_type(&self) -> (r: &'static str)
        ensures
            r@ == "TransactionsImported"@,
    {
        proof {
            reveal_strlit("TransactionsImported");
        }
        "TransactionsImported"
    }
}

} // verus!
