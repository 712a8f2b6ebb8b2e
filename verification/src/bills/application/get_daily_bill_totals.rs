//! Query: the daily totals of the pending bills of a month.
use crate::bills::projections::bill_calendar::{BillCalendarStore, DayBillTotal};
use crate::bills::projections::day_totals::{are_daily_totals, totals_fit};
use std::sync::Arc;
use vstd::prelude::*;

verus! {

/// Query to retrieve the total pending amount per day in a given month.
#[derive(Debug, Clone, Copy)]
pub struct GetDailyBillTotalsQuery {
    /// Calendar year (e.g. `2026`).
    pub year: i32,
    /// Calendar month (1–12).
    pub month: u32,
}

/// Handler that returns the daily totals of the pending bills with a known
/// amount, in chronological order.
pub struct GetDailyBillTotalsHandler {
    pub calendar_store: Arc<BillCalendarStore>,
}

impl GetDailyBillTotalsHandler {
    /// Creates a new handler backed by the given calendar store.
    pub fn new(calendar_store: Arc<BillCalendarStore>) -> (r: Self)
        ensures
            r.calendar_store == calendar_store,
    {
        GetDailyBillTotalsHandler { calendar_store }
    }

    /// Runs the query against the calendar.
    pub fn handle(&self, query: GetDailyBillTotalsQuery) -> (r: Vec<DayBillTotal>)
        requires
            totals_fit(self.calendar_store.entries(), query.year, query.month),
        ensures
            are_daily_totals(r@, self.calendar_store.entries(), query.year, query.month),
    {
        self.calendar_store.daily_totals(query.year, query.month)
    }
}

} // verus!
