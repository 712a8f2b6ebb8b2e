//! Query: the pending bills due in the next days.
use crate::bills::projections::bill_calendar::{upcoming, BillCalendarEntry, BillCalendarStore};
use crate::shared::date::Date;
use std::sync::Arc;
use vstd::prelude::*;

verus! {

/// Query to retrieve bills due within the next N days.
#[derive(Debug, Clone, Copy)]
pub struct GetUpcomingBillsQuery {
    /// Number of days to look ahead from today.
    pub days: i64,
}

/// Handler that returns the pending bills due between today and `days`
/// days later.
pub struct GetUpcomingBillsHandler {
    pub calendar_store: Arc<BillCalendarStore>,
}

impl GetUpcomingBillsHandler {
    /// Creates a new handler backed by the given calendar store.
    pub fn new(calendar_store: Arc<BillCalendarStore>) -> (r: Self)
        ensures
            r.calendar_store == calendar_store,
    {
        GetUpcomingBillsHandler { calendar_store }
    }

    /// Runs the query against the calendar; today's date is read from the
    /// clock.
    pub fn handle(&self, query: GetUpcomingBillsQuery) -> (r: Vec<BillCalendarEntry>)
        ensures
            exists|t: Date|
                t.valid() && r@ == self.calendar_store.entries().filter(
                    |e: BillCalendarEntry| upcoming(e, t, query.days),
                ),
    {
        self.calendar_store.find_upcoming(query.days)
    }
}

} // verus!
