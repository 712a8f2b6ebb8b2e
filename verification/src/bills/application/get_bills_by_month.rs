//! Query: the bills due in a month.
use crate::bills::projections::bill_calendar::{due_in_month, BillCalendarEntry, BillCalendarStore};
use std::sync::Arc;
use vstd::prelude::*;

verus! {

/// Query to retrieve all bills due in a specific month.
#[derive(Debug, Clone, Copy)]
pub struct GetBillsByMonthQuery {
    /// Calendar year (e.g. `2026`).
    pub year: i32,
    /// Calendar month (1–12).
    pub month: u32,
}

/// Handler that returns all bills due in the given month, paid or not.
pub struct GetBillsByMonthHandler {
    pub calendar_store: Arc<BillCalendarStore>,
}

impl GetBillsByMonthHandler {
    /// Creates a new handler backed by the given calendar store.
    pub fn new(calendar_store: Arc<BillCalendarStore>) -> (r: Self)
        ensures
            r.calendar_store == calendar_store,
    {
        GetBillsByMonthHandler { calendar_store }
    }

    /// Runs the query against the calendar.
    pub fn handle(&self, query: GetBillsByMonthQuery) -> (r: Vec<BillCalendarEntry>)
        ensures
            r@ == self.calendar_store.entries().filter(
                |e: BillCalendarEntry| due_in_month(e, query.year, query.month),
            ),
    {
        self.calendar_store.find_by_month(query.year, query.month)
    }
}

} // verus!
