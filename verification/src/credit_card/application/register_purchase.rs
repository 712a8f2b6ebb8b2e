//! Command: register a purchase on a credit card, at once or in
//! installments over consecutive invoices.
use crate::credit_card::application::installments::{
    installment_cents, last_month_index, month_at, plan_installments, Installment,
};
use crate::credit_card::application::card_access::owned_card;
use crate::credit_card::domain::card::CreditCard;
use crate::credit_card::domain::events::PurchaseAdded;
use crate::credit_card::domain::invoice::{Invoice, InvoiceStatus};
use crate::credit_card::domain::purchase::Purchase;
use crate::shared::date::{Date, YearMonth, MAX_YEAR, MIN_YEAR};
use crate::shared::errors::CreditCardError;
use crate::shared::ids::{CategoryID, CreditCardID, InstallmentGroupID, InvoiceID, PurchaseID, UserID};
use crate::shared::clock::now_millis;
use crate::provider::id::IdGenerator;
use crate::shared::money::Money;
use std::sync::Arc;
use vstd::prelude::*;

verus! {

/// Command to register a new purchase on a credit card.
#[derive(Debug, Clone)]
pub struct RegisterPurchaseCommand {
    pub owner_id: UserID,
    pub credit_card_id: CreditCardID,
    pub description: String,
    pub total_amount: Money,
    pub installments_count: u32,
    pub category_id: CategoryID,
    pub purchased_at: Date,
}

/// Handler that registers purchases.
///
/// A purchase in one installment goes to the card's open invoice (a new
/// one for the purchase's month when none is open). A purchase in several
/// installments is split with [`plan_installments`]: installment `i` goes
/// to the invoice of the `i`-th month from the purchase's month, all
/// installments linked by one [`InstallmentGroupID`].
pub struct RegisterPurchaseHandler<C, I, P, Id> {
    pub credit_card_repository: Arc<C>,
    pub invoice_repository: Arc<I>,
    pub event_publisher: Arc<P>,
    pub id_generator: Arc<Id>,
}

impl<C, I, P, Id> RegisterPurchaseHandler<C, I, P, Id> {
    /// Creates a new handler with the given dependencies.
    pub fn new(
        credit_card_repository: Arc<C>,
        invoice_repository: Arc<I>,
        event_publisher: Arc<P>,
        id_generator: Arc<Id>,
    ) -> (r: Self)
        ensures
            r.credit_card_repository == credit_card_repository,
            r.invoice_repository == invoice_repository,
            r.event_publisher == event_publisher,
            r.id_generator == id_generator,
    {
        RegisterPurchaseHandler {
            credit_card_repository,
            invoice_repository,
            event_publisher,
            id_generator,
        }
    }

    /// Checks made before anything is registered: the card exists and
    /// belongs to the command's owner, and the installment count is at
    /// least one (each failed check has its own error, in that order).
    pub fn check(card: Option<CreditCard>, cmd: &RegisterPurchaseCommand) -> (r: Result<(), CreditCardError>)
        ensures
            card is None ==> (r matches Err(CreditCardError::CreditCardNotFound(id)) && id
                == cmd.credit_card_id),
            card matches Some(c) ==> (c.owner_id != cmd.owner_id ==> (r matches Err(
                CreditCardError::InvariantViolation(m),
            ) && m@ == "credit card does not belong to owner"@)),
            card matches Some(c) ==> (c.owner_id == cmd.owner_id && cmd.installments_count == 0
                ==> (r matches Err(CreditCardError::InvariantViolation(m)) && m@
                == "installments_count must be >= 1"@)),
            r is Ok <==> (card matches Some(c) && c.owner_id == cmd.owner_id
                && cmd.installments_count >= 1),
    {
        match owned_card(card, cmd.credit_card_id, cmd.owner_id) {
            Ok(_) => {},
            Err(e) => {
                return Err(e);
            },
        }
        if cmd.installments_count == 0 {
            return Err(
                CreditCardError::InvariantViolation(
                    String::from_str("installments_count must be >= 1"),
                ),
            );
        }
        Ok(())
    }

    /// The purchase of a command in one installment, under a fresh
    /// identifier.
    pub fn single_purchase(&self, cmd: &RegisterPurchaseCommand) -> (r: Purchase)
        where Id: IdGenerator,
        ensures
            r.description == cmd.description,
            r.total_amount == cmd.total_amount,
            r.installments_count == 1,
            r.installment_number == 1,
            r.installment_group_id is None,
            r.category_id == cmd.category_id,
            r.purchased_at == cmd.purchased_at,
            self.id_generator.issues(r.id.0),
    {
        let purchase_id = PurchaseID(self.id_generator.new_id());
        Purchase::new(
            purchase_id,
            cmd.description.clone(),
            cmd.total_amount,
            1,
            cmd.category_id,
            cmd.purchased_at,
        )
    }

    /// The installments of a command in several installments: amounts
    /// from [`split_installments`](crate::credit_card::application::installments::split_installments),
    /// months counted from the month of the purchase; `None` when the count
    /// is zero or some installment's month lies outside the supported
    /// years.
    pub fn installments(cmd: &RegisterPurchaseCommand) -> (r: Option<Vec<Installment>>)
        ensures
            r is Some <==> (cmd.installments_count >= 1 && 1 <= cmd.purchased_at.month <= 12
                && MIN_YEAR * 12 <= YearMonth::from_date_spec(cmd.purchased_at).index()
                && YearMonth::from_date_spec(cmd.purchased_at).index() + cmd.installments_count - 1
                <= last_month_index()),
            r matches Some(v) ==> v@.len() == cmd.installments_count,
            r matches Some(v) ==> forall|i: int|
                0 <= i < cmd.installments_count ==> {
                    &&& (#[trigger] v@[i]).number == i + 1
                    &&& v@[i].amount.currency == cmd.total_amount.currency
                    &&& v@[i].amount.cents == installment_cents(
                        cmd.total_amount.cents as int,
                        cmd.installments_count as int,
                        i,
                    )
                    &&& v@[i].reference_month == month_at(
                        YearMonth::from_date_spec(cmd.purchased_at).index() + i,
                    )
                    &&& v@[i].first_day.valid()
                    &&& v@[i].first_day.year == v@[i].reference_month.year
                    &&& v@[i].first_day.month == v@[i].reference_month.month
                    &&& v@[i].first_day.day == 1
                },
    {
        let start = YearMonth::from_date(cmd.purchased_at);
        if cmd.installments_count == 0 || start.month < 1 || start.month > 12 {
            return None;
        }
        let first: i64 = start.year as i64 * 12 + start.month as i64 - 1;
        let last: i64 = first + cmd.installments_count as i64 - 1;
        if first < MIN_YEAR as i64 * 12 || last > MAX_YEAR as i64 * 12 + 11 {
            return None;
        }
        Some(plan_installments(cmd.total_amount, cmd.installments_count, start))
    }

    /// A fresh identifier for the group of installments of a purchase.
    pub fn new_group(&self) -> (r: InstallmentGroupID)
        where Id: IdGenerator,
        ensures
            self.id_generator.issues(r.0),
    {
        InstallmentGroupID(self.id_generator.new_id())
    }

    /// The purchase that records `item` of the command's installments,
    /// under a fresh identifier, in installment group `group_id`, dated on
    /// the first day of its month.
    pub fn installment_purchase(
        &self,
        cmd: &RegisterPurchaseCommand,
        item: &Installment,
        group_id: InstallmentGroupID,
    ) -> (r: Purchase)
        where Id: IdGenerator,
        ensures
            r.description == cmd.description,
            r.total_amount == item.amount,
            r.installments_count == cmd.installments_count,
            r.installment_number == item.number,
            r.installment_group_id == Some(group_id),
            r.category_id == cmd.category_id,
            r.purchased_at == item.first_day,
            self.id_generator.issues(r.id.0),
    {
        let purchase_id = PurchaseID(self.id_generator.new_id());
        Purchase::new_installment(
            purchase_id,
            cmd.description.clone(),
            item.amount,
            cmd.installments_count,
            item.number,
            group_id,
            cmd.category_id,
            item.first_day,
        )
    }

    /// The invoice that receives a purchase: the one found for it
    /// (`found`), or else a new open invoice of the card for
    /// `reference_month`, under an identifier drawn only then.
    pub fn invoice_or_new(
        &self,
        found: Option<Invoice>,
        credit_card_id: CreditCardID,
        reference_month: YearMonth,
    ) -> (r: Invoice)
        where Id: IdGenerator,
        ensures
            found matches Some(inv) ==> r == inv,
            found is None ==> r.credit_card_id == credit_card_id && r.reference_month
                == reference_month && r.purchases@.len() == 0 && r.status == InvoiceStatus::Open
                && r.closed_at is None && self.id_generator.issues(r.id.0),
    {
        match found {
            Some(inv) => inv,
            None => Invoice::new(InvoiceID(self.id_generator.new_id()), credit_card_id, reference_month),
        }
    }

    /// Adds `purchase` to `invoice` (the invoice found for it, or a new
    /// one) and announces it.
    ///
    /// Answers [`CreditCardError::InvoiceNotOpen`] when the invoice no
    /// longer accepts purchases.
    pub fn file_purchase(invoice: Invoice, purchase: Purchase, credit_card_id: CreditCardID) -> (r: Result<(Invoice, PurchaseAdded), CreditCardError>)
        ensures
            r is Ok <==> invoice.status == InvoiceStatus::Open,
            invoice.status != InvoiceStatus::Open ==> r matches Err(CreditCardError::InvoiceNotOpen),
            r matches Ok(out) ==> {
                &&& out.0.purchases@ == invoice.purchases@.push(purchase)
                &&& out.0.id == invoice.id
                &&& out.0.credit_card_id == invoice.credit_card_id
                &&& out.0.reference_month == invoice.reference_month
                &&& out.0.status == invoice.status
                &&& out.1.purchase_id == purchase.id
                &&& out.1.invoice_id == invoice.id
                &&& out.1.credit_card_id == credit_card_id
                &&& out.1.amount == purchase.total_amount
            },
    {
        let mut invoice = invoice;
        let purchase_id = purchase.id;
        let amount = purchase.total_amount;
        match invoice.add_purchase(purchase) {
            Ok(()) => {},
            Err(e) => {
                return Err(e);
            },
        }
        let event = PurchaseAdded {
            purchase_id,
            invoice_id: invoice.id,
            credit_card_id,
            amount,
            timestamp: now_millis(),
        };
        Ok((invoice, event))
    }
}

} // verus!
