//! Command: mark a bill as paid, and schedule the next occurrence of a
//! recurring bill.
use crate::bills::domain::bill::{month_later, year_later, Bill, BillStatus, RecurrenceRule};
use crate::bills::domain::events::{BillPaid, BillScheduled};
use crate::shared::clock::now_millis;
use crate::shared::date::{day_number, max_day_number, MAX_YEAR};
use crate::shared::errors::BillsError;
use crate::shared::ids::{AccountID, BillID};
use crate::provider::id::IdGenerator;
use std::sync::Arc;
use vstd::prelude::*;

verus! {

/// Command to mark a bill as paid.
#[derive(Debug, Clone, Copy)]
pub struct MarkBillPaidCommand {
    /// The bill to mark as paid.
    pub bill_id: BillID,
    /// The account from which the bill was paid (used by the ledger
    /// integration to create the corresponding expense transaction).
    pub account_id: AccountID,
}

/// Handler that marks bills as paid.
///
/// The bill moves from `Pending` to `Paid` and [`BillPaid`] is published;
/// a recurring bill also gets its next occurrence, a new pending bill due
/// on the next due date, announced with [`BillScheduled`].
pub struct MarkBillPaidHandler<B, P, I> {
    pub bill_repository: Arc<B>,
    pub event_publisher: Arc<P>,
    pub id_generator: Arc<I>,
}

impl<B, P, I> MarkBillPaidHandler<B, P, I> {
    /// Creates a new handler with the given dependencies.
    pub fn new(bill_repository: Arc<B>, event_publisher: Arc<P>, id_generator: Arc<I>) -> (r: Self)
        ensures
            r.bill_repository == bill_repository,
            r.event_publisher == event_publisher,
            r.id_generator == id_generator,
    {
        MarkBillPaidHandler { bill_repository, event_publisher, id_generator }
    }

    /// Marks the bill found under `cmd.bill_id` (`found`) as paid.
    ///
    /// Answers [`BillsError::BillNotFound`] when no bill was found and
    /// [`BillsError::InvariantViolation`] when the bill is not pending;
    /// otherwise the paid bill and the [`BillPaid`] event to publish.
    pub fn pay(found: Option<Bill>, cmd: MarkBillPaidCommand) -> (r: Result<(Bill, BillPaid), BillsError>)
        ensures
            found is None ==> (r matches Err(BillsError::BillNotFound(id)) && id == cmd.bill_id),
            found matches Some(b) ==> (b.status != BillStatus::Pending <==> r matches Err(
                BillsError::InvariantViolation(_),
            )),
            found matches Some(b) ==> (b.status == BillStatus::Pending <==> r is Ok),
            r matches Ok(out) ==> (found matches Some(b) && out.0 == b.with_status(BillStatus::Paid)
                && out.1.bill_id == cmd.bill_id && out.1.amount == b.amount && out.1.account_id
                == cmd.account_id && out.1.category_id == b.category_id),
    {
        let mut bill = match found {
            Some(b) => b,
            None => {
                return Err(BillsError::BillNotFound(cmd.bill_id));
            },
        };
        match bill.mark_paid() {
            Ok(()) => {},
            Err(e) => {
                return Err(e);
            },
        }
        let event = BillPaid {
            bill_id: cmd.bill_id,
            amount: bill.amount,
            account_id: cmd.account_id,
            category_id: bill.category_id,
            timestamp: now_millis(),
        };
        Ok((bill, event))
    }

}

impl<B, P, I: IdGenerator> MarkBillPaidHandler<B, P, I> {
    /// The next occurrence of the paid bill `bill`, under a fresh
    /// identifier drawn only when there is one, with the event that
    /// announces it.
    ///
    /// `None` for a one-time bill and when the next due date does not exist
    /// (see [`Bill::next_due_date`]). The new bill keeps the owner, name,
    /// amount, recurrence and category of `bill` and is pending.
    pub fn next_occurrence(&self, bill: &Bill) -> (r: Option<(Bill, BillScheduled)>)
        requires
            bill.due_date.valid(),
        ensures
            bill.recurrence is None ==> r is None,
            bill.recurrence == Some(RecurrenceRule::Monthly) ==> (r is Some <==> month_later(
                bill.due_date,
            ) is Some) && (r matches Some(x) ==> Some(x.0.due_date) == month_later(bill.due_date)),
            bill.recurrence == Some(RecurrenceRule::Yearly) ==> (r is Some <==> year_later(
                bill.due_date,
            ) is Some) && (r matches Some(x) ==> Some(x.0.due_date) == year_later(bill.due_date)),
            bill.recurrence == Some(RecurrenceRule::Weekly) ==> (r is Some <==> day_number(
                bill.due_date,
            ) + 7 <= max_day_number()) && (r matches Some(x) ==> day_number(x.0.due_date)
                == day_number(bill.due_date) + 7),
            r matches Some(x) ==> {
                &&& x.0.owner_id == bill.owner_id
                &&& x.0.name == bill.name
                &&& x.0.amount == bill.amount
                &&& x.0.recurrence == bill.recurrence
                &&& x.0.category_id == bill.category_id
                &&& x.0.status == BillStatus::Pending
                &&& x.0.due_date.valid()
                &&& x.1.bill_id == x.0.id
                &&& x.1.name == bill.name
                &&& x.1.amount == bill.amount
                &&& x.1.due_date == x.0.due_date
                &&& self.id_generator.issues(x.0.id.0)
            },
            bill.recurrence is Some && bill.due_date.year < MAX_YEAR ==> r is Some,
    {
        if bill.recurrence.is_none() {
            return None;
        }
        let next_date = match bill.next_due_date() {
            Some(d) => d,
            None => {
                return None;
            },
        };
        let new_id = BillID(self.id_generator.new_id());
        let new_bill = Bill::new(
            new_id,
            bill.owner_id,
            bill.name.clone(),
            bill.amount,
            next_date,
            bill.recurrence,
            bill.category_id,
        );
        let event = BillScheduled {
            bill_id: new_id,
            name: new_bill.name.clone(),
            amount: new_bill.amount,
            due_date: next_date,
            timestamp: now_millis(),
        };
        Some((new_bill, event))
    }
}

} // verus!
