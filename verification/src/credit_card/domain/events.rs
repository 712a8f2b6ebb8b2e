//! Events published by the credit card context.
use crate::shared::clock::Timestamp;
use crate::shared::ids::{CreditCardID, InvoiceID, PurchaseID};
use crate::shared::money::Money;
use vstd::prelude::*;

verus! {

/// A purchase (or an installment of one) was added to an invoice.
#[derive(Debug, Clone, Copy)]
pub struct PurchaseAdded {
    pub purchase_id: PurchaseID,
    pub invoice_id: InvoiceID,
    pub credit_card_id: CreditCardID,
    pub amount: Money,
    pub timestamp: Timestamp,
}

/// An invoice was closed with the given total.
#[derive(Debug, Clone, Copy)]
pub struct InvoiceClosed {
    pub invoice_id: InvoiceID,
    pub credit_card_id: CreditCardID,
    pub total: Money,
    pub timestamp: Timestamp,
}

/// An invoice was paid with the given total.
#[derive(Debug, Clone, Copy)]
pub struct InvoicePaid {
    pub invoice_id: InvoiceID,
    pub credit_card_id: CreditCardID,
    pub total: Money,
    pub timestamp: Timestamp,
}

impl PurchaseAdded {
    /// When the event happened.
    pub fn timestamp(&self) -> (r: Timestamp)
        ensures
            r == self.timestamp,
    {
        self.timestamp
    }

    /// Name under which the event is published.
    pub fn event_type(&self) -> (r: &'static str)
        ensures
            r@ == "PurchaseAdded"@,
    {
        proof {
            reveal_strlit("PurchaseAdded");
        }
        "PurchaseAdded"
    }
}

impl InvoiceClosed {
    /// When the event happened.
    pub fn timestamp(&self) -> (r: Timestamp)
        ensures
            r == self.timestamp,
    {
        self.timestamp
    }

    /// Name under which the event is published.
    pub fn event_type(&self) -> (r: &'static str)
        ensures
            r@ == "InvoiceClosed"@,
    {
        proof {
            reveal_strlit("InvoiceClosed");
        }
        "InvoiceClosed"
    }
}

impl InvoicePaid {
    /// When the event happened.
    pub fn timestamp(&self) -> (r: Timestamp)
        ensures
            r == self.timestamp,
    {
        self.timestamp
    }

    /// Name under which the event is published.
    pub fn event_type(&self) -> (r: &'static str)
        ensures
            r@ == "InvoicePaid"@,
    {
        proof {
            reveal_strlit("InvoicePaid");
        }
        "InvoicePaid"
    }
}

} // verus!
