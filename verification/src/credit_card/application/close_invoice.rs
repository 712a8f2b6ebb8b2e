//! Command: close the open invoice of a credit card.
use crate::credit_card::domain::events::InvoiceClosed;
use crate::credit_card::domain::invoice::{closed_invoice, total_defined, Invoice, InvoiceStatus};
use crate::shared::clock::now_millis;
use crate::shared::errors::CreditCardError;
use crate::shared::ids::{CreditCardID, UserID};
use std::sync::Arc;
use vstd::prelude::*;

verus! {

/// Command to close the open invoice of a credit card.
#[derive(Debug, Clone, Copy)]
pub struct CloseInvoiceCommand {
    pub owner_id: UserID,
    pub credit_card_id: CreditCardID,
}

/// Handler that closes invoices: once the card's ownership is checked
/// (see [`owned_card`](crate::credit_card::application::card_access::owned_card)),
/// the card's open invoice is closed and [`InvoiceClosed`] is published
/// with its total.
pub struct CloseInvoiceHandler<C, I, P> {
    pub credit_card_repository: Arc<C>,
    pub invoice_repository: Arc<I>,
    pub event_publisher: Arc<P>,
}

impl<C, I, P> CloseInvoiceHandler<C, I, P> {
    /// Creates a new handler with the given dependencies.
    pub fn new(credit_card_repository: Arc<C>, invoice_repository: Arc<I>, event_publisher: Arc<P>) -> (r: Self)
        ensures
            r.credit_card_repository == credit_card_repository,
            r.invoice_repository == invoice_repository,
            r.event_publisher == event_publisher,
    {
        CloseInvoiceHandler { credit_card_repository, invoice_repository, event_publisher }
    }

    /// Closes the open invoice found for the card (`open`), and announces
    /// it with the total it had when it was closed.
    ///
    /// Answers [`CreditCardError::InvariantViolation`] when the card has no
    /// open invoice.
    pub fn close(open: Option<Invoice>, credit_card_id: CreditCardID) -> (r: Result<(Invoice, InvoiceClosed), CreditCardError>)
        requires
            open matches Some(inv) ==> total_defined(inv.purchases@),
        ensures
            open is None ==> (r matches Err(CreditCardError::InvariantViolation(m)) && m@
                == "no open invoice found"@),
            open matches Some(inv) ==> (r is Ok <==> inv.status == InvoiceStatus::Open),
            open matches Some(inv) ==> (inv.status != InvoiceStatus::Open ==> r matches Err(
                CreditCardError::InvoiceNotOpen,
            )),
            r matches Ok(out) ==> (open matches Some(inv) && out.0.closed_at matches Some(t)
                && out.0 == closed_invoice(inv, t) && out.1.invoice_id == inv.id
                && out.1.credit_card_id == credit_card_id && out.1.total == inv.spec_total()),
    {
        let mut invoice = match open {
            Some(inv) => inv,
            None => {
                return Err(
                    CreditCardError::InvariantViolation(String::from_str("no open invoice found")),
                );
            },
        };
        let total = invoice.total();
        match invoice.close() {
            Ok(()) => {},
            Err(e) => {
                return Err(e);
            },
        }
        let event = InvoiceClosed {
            invoice_id: invoice.id,
            credit_card_id,
            total,
            timestamp: now_millis(),
        };
        Ok((invoice, event))
    }
}

} // verus!
