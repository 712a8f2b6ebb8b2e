//! Command: pay a closed invoice.
use crate::credit_card::domain::events::InvoicePaid;
use crate::credit_card::domain::invoice::{paid_invoice, total_defined, Invoice, InvoiceStatus};
use crate::shared::clock::now_millis;
use crate::shared::errors::CreditCardError;
use crate::shared::ids::{CreditCardID, InvoiceID, UserID};
use std::sync::Arc;
use vstd::prelude::*;

verus! {

/// Command to pay a closed invoice of a credit card.
#[derive(Debug, Clone, Copy)]
pub struct PayInvoiceCommand {
    pub owner_id: UserID,
    pub credit_card_id: CreditCardID,
    pub invoice_id: InvoiceID,
}

/// Handler that pays invoices: once the card's ownership is checked (see
/// [`owned_card`](crate::credit_card::application::card_access::owned_card)),
/// the invoice is marked paid and [`InvoicePaid`] is published with its
/// total.
pub struct PayInvoiceHandler<C, I, P> {
    pub credit_card_repository: Arc<C>,
    pub invoice_repository: Arc<I>,
    pub event_publisher: Arc<P>,
}

impl<C, I, P> PayInvoiceHandler<C, I, P> {
    /// Creates a new handler with the given dependencies.
    pub fn new(credit_card_repository: Arc<C>, invoice_repository: Arc<I>, event_publisher: Arc<P>) -> (r: Self)
        ensures
            r.credit_card_repository == credit_card_repository,
            r.invoice_repository == invoice_repository,
            r.event_publisher == event_publisher,
    {
        PayInvoiceHandler { credit_card_repository, invoice_repository, event_publisher }
    }

    /// Pays the invoice found under `cmd.invoice_id` (`found`) and
    /// announces it with its total.
    ///
    /// Answers [`CreditCardError::InvoiceNotFound`] when there is no such
    /// invoice, and [`CreditCardError::InvariantViolation`] when it belongs
    /// to another card or is not closed.
    pub fn pay(found: Option<Invoice>, cmd: PayInvoiceCommand) -> (r: Result<(Invoice, InvoicePaid), CreditCardError>)
        requires
            found matches Some(inv) ==> total_defined(inv.purchases@),
        ensures
            found is None ==> (r matches Err(CreditCardError::InvoiceNotFound(id)) && id
                == cmd.invoice_id),
            found matches Some(inv) ==> (inv.credit_card_id != cmd.credit_card_id ==> (r matches Err(
                CreditCardError::InvariantViolation(m),
            ) && m@ == "invoice does not belong to this credit card"@)),
            found matches Some(inv) ==> (inv.credit_card_id == cmd.credit_card_id && inv.status
                != InvoiceStatus::Closed ==> (r matches Err(CreditCardError::InvariantViolation(m))
                && m@ == "only closed invoices can be paid"@)),
            r is Ok <==> (found matches Some(inv) && inv.credit_card_id == cmd.credit_card_id
                && inv.status == InvoiceStatus::Closed),
            r matches Ok(out) ==> (found matches Some(inv) && out.0 == paid_invoice(inv)
                && out.1.invoice_id == cmd.invoice_id && out.1.credit_card_id == cmd.credit_card_id
                && out.1.total == inv.spec_total()),
    {
        let mut invoice = match found {
            Some(inv) => inv,
            None => {
                return Err(CreditCardError::InvoiceNotFound(cmd.invoice_id));
            },
        };
        if invoice.credit_card_id != cmd.credit_card_id {
            return Err(
                CreditCardError::InvariantViolation(
                    String::from_str("invoice does not belong to this credit card"),
                ),
            );
        }
        let total = invoice.total();
        match invoice.pay() {
            Ok(()) => {},
            Err(e) => {
                return Err(e);
            },
        }
        let event = InvoicePaid {
            invoice_id: cmd.invoice_id,
            credit_card_id: cmd.credit_card_id,
            total,
            timestamp: now_millis(),
        };
        Ok((invoice, event))
    }
}

} // verus!
