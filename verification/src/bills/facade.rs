//! Entry point of the bills context.
use crate::bills::application::get_bills_by_month::GetBillsByMonthHandler;
use crate::bills::application::get_daily_bill_totals::GetDailyBillTotalsHandler;
use crate::bills::application::get_upcoming_bills::GetUpcomingBillsHandler;
use crate::bills::application::mark_bill_paid::MarkBillPaidHandler;
use crate::bills::application::schedule_bill::ScheduleBillHandler;
use crate::bills::projections::bill_calendar::BillCalendarStore;
use crate::shared::sharing::share;
use std::sync::Arc;
use vstd::prelude::*;

verus! {

/// All the use cases of the bills context behind one value, sharing the
/// same ports.
pub struct BillsFacade<B, P, I> {
    pub schedule_bill: ScheduleBillHandler<B, P, I>,
    pub mark_bill_paid: MarkBillPaidHandler<B, P, I>,
    pub get_bills_by_month: GetBillsByMonthHandler,
    pub get_daily_bill_totals: GetDailyBillTotalsHandler,
    pub get_upcoming_bills: GetUpcomingBillsHandler,
    pub bill_repository: Arc<B>,
}

impl<B, P, I> BillsFacade<B, P, I> {
    /// Creates a new facade whose handlers share the given ports.
    pub fn new(
        bill_repository: Arc<B>,
        event_publisher: Arc<P>,
        id_generator: Arc<I>,
        calendar_store: Arc<BillCalendarStore>,
    ) -> (r: Self)
        ensures
            r.schedule_bill.bill_repository == bill_repository,
            r.schedule_bill.event_publisher == event_publisher,
            r.schedule_bill.id_generator == id_generator,
            r.mark_bill_paid.bill_repository == bill_repository,
            r.mark_bill_paid.event_publisher == event_publisher,
            r.mark_bill_paid.id_generator == id_generator,
            r.get_bills_by_month.calendar_store == calendar_store,
            r.get_daily_bill_totals.calendar_store == calendar_store,
            r.get_upcoming_bills.calendar_store == calendar_store,
            r.bill_repository == bill_repository,
    {
        BillsFacade {
            schedule_bill: ScheduleBillHandler::new(
                share(&bill_repository),
                share(&event_publisher),
                share(&id_generator),
            ),
            mark_bill_paid: MarkBillPaidHandler::new(share(&bill_repository), event_publisher, id_generator),
            get_bills_by_month: GetBillsByMonthHandler::new(share(&calendar_store)),
            get_daily_bill_totals: GetDailyBillTotalsHandler::new(share(&calendar_store)),
            get_upcoming_bills: GetUpcomingBillsHandler::new(calendar_store),
            bill_repository,
        }
    }
}

} // verus!
