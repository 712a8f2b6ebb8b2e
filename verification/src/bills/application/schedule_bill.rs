//! Command: schedule a new bill.
use crate::bills::domain::bill::{Bill, BillStatus, RecurrenceRule};
use crate::bills::domain::events::BillScheduled;
use crate::shared::clock::now_millis;
use crate::shared::date::Date;
use crate::shared::ids::{BillID, CategoryID, Principal};
use crate::provider::id::IdGenerator;
use crate::shared::money::Money;
use std::sync::Arc;
use vstd::prelude::*;

verus! {

/// Command to schedule a new bill (recurring or one-time).
#[derive(Debug, Clone)]
pub struct ScheduleBillCommand {
    /// The user who owns this bill.
    pub principal: Principal,
    /// Human-readable bill name (e.g. "Internet", "Rent").
    pub name: String,
    /// Monetary amount, or `None` for variable-amount bills.
    pub amount: Option<Money>,
    /// When the bill is due.
    pub due_date: Date,
    /// Recurrence pattern, or `None` for one-time bills.
    pub recurrence: Option<RecurrenceRule>,
    /// Category for budgeting/tracking purposes.
    pub category_id: CategoryID,
}

/// Handler that schedules bills: it creates a pending [`Bill`], publishes
/// [`BillScheduled`] and saves the bill.
pub struct ScheduleBillHandler<B, P, I> {
    pub bill_repository: Arc<B>,
    pub event_publisher: Arc<P>,
    pub id_generator: Arc<I>,
}

impl<B, P, I> ScheduleBillHandler<B, P, I> {
    /// Creates a new handler with the given dependencies.
    pub fn new(bill_repository: Arc<B>, event_publisher: Arc<P>, id_generator: Arc<I>) -> (r: Self)
        ensures
            r.bill_repository == bill_repository,
            r.event_publisher == event_publisher,
            r.id_generator == id_generator,
    {
        ScheduleBillHandler { bill_repository, event_publisher, id_generator }
    }

}

impl<B, P, I: IdGenerator> ScheduleBillHandler<B, P, I> {
    /// The bill that the command schedules, under a fresh identifier, and
    /// the event that announces it.
    pub fn schedule(&self, cmd: ScheduleBillCommand) -> (r: (Bill, BillScheduled))
        ensures
            r.0.owner_id == cmd.principal.user_id,
            r.0.name == cmd.name,
            r.0.amount == cmd.amount,
            r.0.due_date == cmd.due_date,
            r.0.recurrence == cmd.recurrence,
            r.0.category_id == cmd.category_id,
            r.0.status == BillStatus::Pending,
            r.1.bill_id == r.0.id,
            r.1.name == cmd.name,
            r.1.amount == cmd.amount,
            r.1.due_date == cmd.due_date,
            self.id_generator.issues(r.0.id.0),
    {
        let id = BillID(self.id_generator.new_id());
        let bill = Bill::new(
            id,
            cmd.principal.user_id,
            cmd.name.clone(),
            cmd.amount,
            cmd.due_date,
            cmd.recurrence,
            cmd.category_id,
        );
        let event = BillScheduled {
            bill_id: id,
            name: cmd.name,
            amount: cmd.amount,
            due_date: cmd.due_date,
            timestamp: now_millis(),
        };
        (bill, event)
    }
}

} // verus!
