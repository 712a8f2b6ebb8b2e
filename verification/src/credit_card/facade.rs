//! Entry point of the credit card context.
use crate::credit_card::application::check_limit::CreditCardService;
use crate::credit_card::application::close_invoice::CloseInvoiceHandler;
use crate::credit_card::application::pay_invoice::PayInvoiceHandler;
use crate::credit_card::application::register_card::RegisterCardHandler;
use crate::credit_card::application::register_purchase::RegisterPurchaseHandler;
use crate::shared::sharing::share;
use std::sync::Arc;
use vstd::prelude::*;

verus! {

/// All the use cases of the credit card context behind one value, sharing
/// the same ports.
pub struct CreditCardFacade<C, I, P, Id> {
    pub register_card: RegisterCardHandler<C, Id>,
    pub register_purchase: RegisterPurchaseHandler<C, I, P, Id>,
    pub close_invoice: CloseInvoiceHandler<C, I, P>,
    pub pay_invoice: PayInvoiceHandler<C, I, P>,
    pub check_limit: CreditCardService<I>,
    pub invoice_repository: Arc<I>,
}

impl<C, I, P, Id> CreditCardFacade<C, I, P, Id> {
    /// Creates a new facade whose handlers share the given ports.
    pub fn new(
        credit_card_repository: Arc<C>,
        invoice_repository: Arc<I>,
        event_publisher: Arc<P>,
        id_generator: Arc<Id>,
    ) -> (r: Self)
        ensures
            r.register_card.credit_card_repository == credit_card_repository,
            r.register_card.id_generator == id_generator,
            r.register_purchase.credit_card_repository == credit_card_repository,
            r.register_purchase.invoice_repository == invoice_repository,
            r.register_purchase.event_publisher == event_publisher,
            r.register_purchase.id_generator == id_generator,
            r.close_invoice.credit_card_repository == credit_card_repository,
            r.close_invoice.invoice_repository == invoice_repository,
            r.close_invoice.event_publisher == event_publisher,
            r.pay_invoice.credit_card_repository == credit_card_repository,
            r.pay_invoice.invoice_repository == invoice_repository,
            r.pay_invoice.event_publisher == event_publisher,
            r.check_limit.invoice_repository == invoice_repository,
            r.invoice_repository == invoice_repository,
    {
        CreditCardFacade {
            register_card: RegisterCardHandler::new(share(&credit_card_repository), share(&id_generator)),
            register_purchase: RegisterPurchaseHandler::new(
                share(&credit_card_repository),
                share(&invoice_repository),
                share(&event_publisher),
                id_generator,
            ),
            close_invoice: CloseInvoiceHandler::new(
                share(&credit_card_repository),
                share(&invoice_repository),
                share(&event_publisher),
            ),
            pay_invoice: PayInvoiceHandler::new(
                credit_card_repository,
                share(&invoice_repository),
                event_publisher,
            ),
            check_limit: CreditCardService::new(share(&invoice_repository)),
            invoice_repository,
        }
    }
}

} // verus!
