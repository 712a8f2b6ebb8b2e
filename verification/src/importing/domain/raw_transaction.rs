//! A row of a financial statement before it is imported.
use crate::shared::date::Date;
use crate::shared::money::Money;
use vstd::prelude::*;

verus! {

/// A single row parsed from a financial statement, before import into the
/// ledger.
#[derive(Debug, Clone, PartialEq, Eq)]
pub struct RawTransaction {
    /// Transaction date as parsed from the statement.
    pub date: Date,
    /// Monetary amount (positive = income, negative = expense).
    pub amount: Money,
    /// Description or memo from the statement.
    pub description: String,
    /// The original unparsed line, kept for audit and debugging.
    pub raw_line: String,
}

impl RawTransaction {
    /// An identical copy of the row.
    pub fn duplicate(&self) -> (r: RawTransaction)
        ensures
            r == *self,
    {
        RawTransaction {
            date: self.date,
            amount: self.amount,
            description: self.description.clone(),
            raw_line: self.raw_line.clone(),
        }
    }
}

} // verus!
