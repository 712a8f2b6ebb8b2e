//! Calendar read model of the bills, fed by bill events.
use crate::bills::domain::bill::BillStatus;
use crate::bills::domain::events::{BillPaid, BillScheduled};
use crate::bills::projections::day_totals::{
    are_daily_totals, compute_daily_totals, counts_toward_totals, lemma_daily_totals_ascending,
    lemma_daily_totals_complete, lemma_daily_totals_in_month, totals_fit,
};
use crate::shared::clock::{random_u128, today};
use crate::shared::date::{day_number, Date};
use crate::shared::ids::{BillID, CategoryID};
use crate::shared::money::Money;
use vstd::prelude::*;

verus! {

/// A single bill entry in the calendar view.
#[derive(Debug, Clone)]
pub struct BillCalendarEntry {
    /// The bill's unique identifier.
    pub bill_id: BillID,
    /// Human-readable bill name.
    pub name: String,
    /// Monetary amount, or `None` for variable-amount bills.
    pub amount: Option<Money>,
    /// When the bill is due.
    pub due_date: Date,
    /// Current payment status.
    pub status: BillStatus,
    /// Category for budgeting/tracking purposes.
    pub category_id: CategoryID,
}

/// Aggregated bill total for a single day.
#[derive(Debug, Clone, Copy)]
pub struct DayBillTotal {
    /// The calendar date.
    pub date: Date,
    /// Sum of all pending bills due on this date.
    pub total: Money,
}

impl BillCalendarEntry {
    /// An identical copy of the entry.
    fn duplicate(&self) -> (r: BillCalendarEntry)
        ensures
            r == *self,
    {
        BillCalendarEntry {
            bill_id: self.bill_id,
            name: self.name.clone(),
            amount: self.amount,
            due_date: self.due_date,
            status: self.status,
            category_id: self.category_id,
        }
    }
}

/// `e` is the pending entry that scheduling `ev` produces (its category is
/// not carried by the event).
pub open spec fn entry_from_scheduled(e: BillCalendarEntry, ev: BillScheduled) -> bool {
    &&& e.bill_id == ev.bill_id
    &&& e.name == ev.name
    &&& e.amount == ev.amount
    &&& e.due_date == ev.due_date
    &&& e.status == BillStatus::Pending
}

/// The entry that scheduling a bill leaves in the calendar carries the
/// event's bill, name, amount and due date, and is pending.
pub proof fn lemma_scheduled_entry_fields(e: BillCalendarEntry, ev: BillScheduled)
    requires
        entry_from_scheduled(e, ev),
    ensures
        e.bill_id == ev.bill_id,
        e.name == ev.name,
        e.amount == ev.amount,
        e.due_date == ev.due_date,
        e.status == BillStatus::Pending,
{
}

/// `e` is due in the given month.
pub open spec fn due_in_month(e: BillCalendarEntry, year: i32, month: u32) -> bool {
    e.due_date.year == year && e.due_date.month == month
}

/// `e` is pending and due between `today` and `days` days after it, both
/// ends included.
pub open spec fn upcoming(e: BillCalendarEntry, today: Date, days: i64) -> bool {
    &&& e.status == BillStatus::Pending
    &&& day_number(today) <= day_number(e.due_date)
    &&& day_number(e.due_date) <= day_number(today) + days
}

/// What is written is read back: the entry that scheduling `ev` leaves in
/// the calendar is listed, pending, among the bills of the month of its
/// due date; once paid it is still listed there, as paid.
pub proof fn lemma_scheduled_entry_listed(s: Seq<BillCalendarEntry>, j: int, ev: BillScheduled)
    requires
        0 <= j < s.len(),
        entry_from_scheduled(s[j], ev),
    ensures
        s.filter(|e: BillCalendarEntry| due_in_month(e, ev.due_date.year, ev.due_date.month)).contains(
            s[j],
        ),
        s[j].status == BillStatus::Pending,
        ({
            let paid = s.update(j, BillCalendarEntry { status: BillStatus::Paid, ..s[j] });
            paid.filter(|e: BillCalendarEntry| due_in_month(e, ev.due_date.year, ev.due_date.month)).contains(
                paid[j],
            ) && paid[j].status == BillStatus::Paid && paid[j].bill_id == ev.bill_id
        }),
{
    let pred = |e: BillCalendarEntry| due_in_month(e, ev.due_date.year, ev.due_date.month);
    s.lemma_filter_contains(pred, j);
    let paid = s.update(j, BillCalendarEntry { status: BillStatus::Paid, ..s[j] });
    paid.lemma_filter_contains(pred, j);
}

/// The entries of `s` due in the given month, in order.
pub open spec fn month_bills(s: Seq<BillCalendarEntry>, year: i32, month: u32) -> Seq<BillCalendarEntry> {
    s.filter(|e: BillCalendarEntry| due_in_month(e, year, month))
}

/// The bills of a month are exactly the entries due in that month of that
/// year: every listed entry has the month's year and month as its due date,
/// and every entry with such a due date is listed.
pub proof fn lemma_month_listing(s: Seq<BillCalendarEntry>, year: i32, month: u32)
    ensures
        forall|i: int|
            0 <= i < month_bills(s, year, month).len() ==> (#[trigger] month_bills(
                s,
                year,
                month,
            )[i]).due_date.year == year && month_bills(s, year, month)[i].due_date.month == month,
        forall|j: int|
            0 <= j < s.len() && (#[trigger] s[j]).due_date.year == year && s[j].due_date.month
                == month ==> month_bills(s, year, month).contains(s[j]),
{
    let pred = |e: BillCalendarEntry| due_in_month(e, year, month);
    assert(month_bills(s, year, month) == s.filter(pred));
    assert forall|i: int| 0 <= i < s.filter(pred).len() implies (#[trigger] s.filter(pred)[i]).due_date.year
        == year && s.filter(pred)[i].due_date.month == month by {
        s.lemma_filter_pred(pred, i);
    }
    assert forall|j: int|
        0 <= j < s.len() && (#[trigger] s[j]).due_date.year == year && s[j].due_date.month
            == month implies s.filter(pred).contains(s[j]) by {
        s.lemma_filter_contains(pred, j);
    }
}

/// The entries of `s` that are upcoming from `today` within `days` days.
pub open spec fn upcoming_bills(s: Seq<BillCalendarEntry>, today: Date, days: i64) -> Seq<BillCalendarEntry> {
    s.filter(|e: BillCalendarEntry| upcoming(e, today, days))
}

/// The upcoming bills are exactly the pending entries whose due day number
/// lies from today's to `days` days later: every listed entry is pending and
/// due in that span, and every pending entry due in it is listed.
pub proof fn lemma_upcoming_listing(s: Seq<BillCalendarEntry>, today: Date, days: i64)
    ensures
        forall|i: int|
            0 <= i < upcoming_bills(s, today, days).len() ==> (#[trigger] upcoming_bills(
                s,
                today,
                days,
            )[i]).status == BillStatus::Pending && day_number(today) <= day_number(
                upcoming_bills(s, today, days)[i].due_date,
            ) <= day_number(today) + days,
        forall|j: int|
            0 <= j < s.len() && (#[trigger] s[j]).status == BillStatus::Pending && day_number(today)
                <= day_number(s[j].due_date) <= day_number(today) + days ==> upcoming_bills(
                s,
                today,
                days,
            ).contains(s[j]),
{
    let pred = |e: BillCalendarEntry| upcoming(e, today, days);
    assert(upcoming_bills(s, today, days) == s.filter(pred));
    assert forall|i: int| 0 <= i < s.filter(pred).len() implies (#[trigger] s.filter(pred)[i]).status
        == BillStatus::Pending && day_number(today) <= day_number(s.filter(pred)[i].due_date)
        <= day_number(today) + days by {
        s.lemma_filter_pred(pred, i);
    }
    assert forall|j: int|
        0 <= j < s.len() && (#[trigger] s[j]).status == BillStatus::Pending && day_number(today)
            <= day_number(s[j].due_date) <= day_number(today) + days implies s.filter(pred).contains(
        s[j],
    ) by {
        s.lemma_filter_contains(pred, j);
    }
}

/// A paid entry neither counts toward the daily totals nor is upcoming.
pub proof fn lemma_paid_entry_excluded(e: BillCalendarEntry, year: i32, month: u32, today: Date, days: i64)
    requires
        e.status == BillStatus::Paid,
    ensures
        !counts_toward_totals(e, year, month),
        !upcoming(e, today, days),
{
}

/// No two entries of `s` belong to the same bill.
pub open spec fn ids_distinct(s: Seq<BillCalendarEntry>) -> bool {
    forall|i: int, j: int| 0 <= i < j < s.len() ==> (#[trigger] s[i]).bill_id != (#[trigger] s[j]).bill_id
}

/// Every entry of `s` has a valid due date.
pub open spec fn dates_valid(s: Seq<BillCalendarEntry>) -> bool {
    forall|i: int| 0 <= i < s.len() ==> (#[trigger] s[i]).due_date.valid()
}

/// In-memory projection of the bills by due date.
///
/// Holds at most one entry per bill, in the order in which the bills were
/// first scheduled.
pub struct BillCalendarStore {
    entries: Vec<BillCalendarEntry>,
}

/// The laws of the daily totals of `s` for a month, for entries with valid
/// due dates (see [`lemma_daily_totals_in_month`] and
/// [`lemma_daily_totals_ascending`]).
proof fn lemma_totals_laws(v: Seq<DayBillTotal>, s: Seq<BillCalendarEntry>, year: i32, month: u32)
    requires
        are_daily_totals(v, s, year, month),
        dates_valid(s),
    ensures
        forall|i: int| 0 <= i < v.len() ==> (#[trigger] v[i]).date.year == year && v[i].date.month == month,
        forall|i: int, j: int|
            0 <= i < j < v.len() ==> day_number((#[trigger] v[i]).date) < day_number((#[trigger] v[j]).date),
        forall|k: int|
            0 <= k < s.len() && (#[trigger] s[k]).due_date.year == year && s[k].due_date.month == month
                && s[k].status == BillStatus::Pending && s[k].amount is Some ==> exists|i: int|
                0 <= i < v.len() && (#[trigger] v[i]).date == s[k].due_date,
{
    assert(forall|i: int, j: int|
        0 <= i < j < v.len() ==> day_number((#[trigger] v[i]).date) < day_number(
            (#[trigger] v[j]).date,
        )) by {
        lemma_daily_totals_ascending(v, s, year, month);
    }
    assert(forall|i: int|
        0 <= i < v.len() ==> (#[trigger] v[i]).date.year == year && v[i].date.month == month) by {
        lemma_daily_totals_in_month(v, s, year, month);
    }
    assert(forall|k: int|
        0 <= k < s.len() && (#[trigger] s[k]).due_date.year == year && s[k].due_date.month == month
            && s[k].status == BillStatus::Pending && s[k].amount is Some ==> exists|i: int|
            0 <= i < v.len() && (#[trigger] v[i]).date == s[k].due_date) by {
        lemma_daily_totals_complete(v, s, year, month);
    }
}

impl Default for BillCalendarStore {
    fn default() -> (r: Self)
        ensures
            r.entries() == Seq::<BillCalendarEntry>::empty(),
    {
        BillCalendarStore::new()
    }
}

impl BillCalendarStore {
    #[verifier::type_invariant]
    spec fn store_inv(self) -> bool {
        ids_distinct(self.entries@) && dates_valid(self.entries@)
    }

    /// The entries of the calendar, in the order in which their bills were
    /// first scheduled.
    pub closed spec fn entries(&self) -> Seq<BillCalendarEntry> {
        self.entries@
    }

    /// Creates an empty calendar store.
    pub fn new() -> (r: BillCalendarStore)
        ensures
            r.entries() == Seq::<BillCalendarEntry>::empty(),
    {
        BillCalendarStore { entries: Vec::new() }
    }

    /// Records a newly scheduled bill as a pending entry.
    ///
    /// An entry already held for the same bill is replaced in place;
    /// otherwise the entry is appended. The event carries no category, so
    /// the entry is filed under a fresh random category.
    pub fn handle_bill_scheduled(&mut self, event: &BillScheduled)
        requires
            event.due_date.valid(),
        ensures
            (exists|i: int|
                0 <= i < old(self).entries().len() && old(self).entries()[i].bill_id
                    == event.bill_id) ==> {
                &&& final(self).entries().len() == old(self).entries().len()
                &&& forall|j: int|
                    0 <= j < old(self).entries().len() ==> if old(self).entries()[j].bill_id
                        == event.bill_id {
                        entry_from_scheduled(final(self).entries()[j], *event)
                    } else {
                        final(self).entries()[j] == old(self).entries()[j]
                    }
            },
            !(exists|i: int|
                0 <= i < old(self).entries().len() && old(self).entries()[i].bill_id
                    == event.bill_id) ==> {
                &&& final(self).entries().len() == old(self).entries().len() + 1
                &&& forall|j: int|
                    0 <= j < old(self).entries().len() ==> final(self).entries()[j] == old(
                        self,
                    ).entries()[j]
                &&& entry_from_scheduled(final(self).entries()[old(self).entries().len() as int], *event)
            },
    {
        proof {
            use_type_invariant(&*self);
        }
        let entry = BillCalendarEntry {
            bill_id: event.bill_id,
            name: event.name.clone(),
            amount: event.amount,
            due_date: event.due_date,
            status: BillStatus::Pending,
            category_id: CategoryID(random_u128()),
        };
        let ghost before = self.entries@;
        let n = self.entries.len();
        let mut i: usize = 0;
        while i < n
            invariant
                n == before.len(),
                self.entries@ == before,
                before == old(self).entries@,
                ids_distinct(before),
                dates_valid(before),
                0 <= i <= n,
                forall|j: int| 0 <= j < i ==> before[j].bill_id != event.bill_id,
                entry_from_scheduled(entry, *event),
                entry.due_date.valid(),
            decreases n - i,
        {
            if self.entries[i].bill_id == event.bill_id {
                let mut entries = Vec::new();
                std::mem::swap(&mut entries, &mut self.entries);
                assert(entries@ == before);
                entries.set(i, entry);
                assert(entries@ == before.update(i as int, entry));
                assert(entries@[i as int].bill_id == before[i as int].bill_id);
                proof {
                    assert forall|j: int| 0 <= j < before.len() implies #[trigger] entries@[j].bill_id
                        == before[j].bill_id by {}
                    assert forall|j: int| 0 <= j < before.len() && j != i implies before[j].bill_id
                        != event.bill_id by {
                        if j > i {
                            assert(before[i as int].bill_id != before[j].bill_id);
                        }
                    }
                }
                self.entries = entries;
                return ;
            }
            i = i + 1;
        }
        let mut entries = Vec::new();
        std::mem::swap(&mut entries, &mut self.entries);
        entries.push(entry);
        proof {
            assert(entries@.last() == entry);
        }
        self.entries = entries;
    }

    /// Marks the entry of the paid bill as [`BillStatus::Paid`]; an event
    /// for a bill that is not in the calendar changes nothing.
    pub fn handle_bill_paid(&mut self, event: &BillPaid)
        ensures
            final(self).entries().len() == old(self).entries().len(),
            forall|j: int|
                0 <= j < old(self).entries().len() ==> (#[trigger] final(self).entries()[j]) == if old(
                    self,
                ).entries()[j].bill_id == event.bill_id {
                    BillCalendarEntry { status: BillStatus::Paid, ..old(self).entries()[j] }
                } else {
                    old(self).entries()[j]
                },
    {
        proof {
            use_type_invariant(&*self);
        }
        let ghost before = self.entries@;
        let n = self.entries.len();
        let mut i: usize = 0;
        while i < n
            invariant
                n == before.len(),
                self.entries@ == before,
                before == old(self).entries@,
                ids_distinct(before),
                dates_valid(before),
                0 <= i <= n,
                forall|j: int| 0 <= j < i ==> before[j].bill_id != event.bill_id,
            decreases n - i,
        {
            if self.entries[i].bill_id == event.bill_id {
                let mut entries = Vec::new();
                std::mem::swap(&mut entries, &mut self.entries);
                let mut e = entries[i].duplicate();
                e.status = BillStatus::Paid;
                entries.set(i, e);
                proof {
                    assert forall|j: int| 0 <= j < before.len() implies #[trigger] entries@[j].bill_id
                        == before[j].bill_id by {}
                    assert forall|j: int| 0 <= j < before.len() && j != i implies before[j].bill_id
                        != event.bill_id by {
                        if j > i {
                            assert(before[i as int].bill_id != before[j].bill_id);
                        }
                    }
                }
                self.entries = entries;
                return ;
            }
            i = i + 1;
        }
    }

    /// All entries due in the given month, whatever their status, in
    /// calendar order.
    pub fn find_by_month(&self, year: i32, month: u32) -> (r: Vec<BillCalendarEntry>)
        ensures
            r@ == self.entries().filter(|e: BillCalendarEntry| due_in_month(e, year, month)),
            forall|i: int|
                0 <= i < r@.len() ==> (#[trigger] r@[i]).due_date.year == year && r@[i].due_date.month
                    == month,
            forall|j: int|
                0 <= j < self.entries().len() && (#[trigger] self.entries()[j]).due_date.year == year
                    && self.entries()[j].due_date.month == month ==> r@.contains(self.entries()[j]),
    {
        let ghost pred = |e: BillCalendarEntry| due_in_month(e, year, month);
        let mut out: Vec<BillCalendarEntry> = Vec::new();
        let n = self.entries.len();
        let mut i: usize = 0;
        while i < n
            invariant
                n == self.entries@.len(),
                0 <= i <= n,
                out@ == self.entries@.take(i as int).filter(pred),
                pred == (|e: BillCalendarEntry| due_in_month(e, year, month)),
            decreases n - i,
        {
            let ghost s1 = self.entries@.take(i + 1);
            proof {
                assert(s1.drop_last() =~= self.entries@.take(i as int));
                assert(s1.last() == self.entries@[i as int]);
                reveal_with_fuel(Seq::filter, 1);
                assert(s1.filter(pred) == if pred(s1.last()) {
                    s1.drop_last().filter(pred).push(s1.last())
                } else {
                    s1.drop_last().filter(pred)
                });
            }
            if self.entries[i].due_date.year == year && self.entries[i].due_date.month == month {
                out.push(self.entries[i].duplicate());
                assert(due_in_month(self.entries@[i as int], year, month));
                assert(due_in_month(s1.last(), year, month));
                assert(pred(s1.last()));
            } else {
                assert(!pred(s1.last()));
            }
            assert(out@ == s1.filter(pred));
            i = i + 1;
        }
        proof {
            assert(self.entries@.take(n as int) == self.entries@);
            lemma_month_listing(self.entries@, year, month);
        }
        out
    }

    /// Day totals of the pending bills of the month that have an amount, in
    /// chronological order, each in Brazilian reais; `None` when some day's
    /// total does not fit in 64 bits of cents.
    pub fn try_daily_totals(&self, year: i32, month: u32) -> (r: Option<Vec<DayBillTotal>>)
        ensures
            r is Some <==> totals_fit(self.entries(), year, month),
            r matches Some(v) ==> are_daily_totals(v@, self.entries(), year, month),
            r matches Some(v) ==> forall|i: int|
                0 <= i < v@.len() ==> (#[trigger] v@[i]).date.year == year && v@[i].date.month == month,
            r matches Some(v) ==> forall|i: int, j: int|
                0 <= i < j < v@.len() ==> day_number((#[trigger] v@[i]).date) < day_number(
                    (#[trigger] v@[j]).date,
                ),
            r matches Some(v) ==> forall|k: int|
                0 <= k < self.entries().len() && (#[trigger] self.entries()[k]).due_date.year == year
                    && self.entries()[k].due_date.month == month && self.entries()[k].status
                    == BillStatus::Pending && self.entries()[k].amount is Some ==> exists|i: int|
                    0 <= i < v@.len() && (#[trigger] v@[i]).date == self.entries()[k].due_date,
    {
        proof {
            use_type_invariant(self);
        }
        let r = compute_daily_totals(&self.entries, year, month);
        proof {
            if r is Some {
                lemma_totals_laws(r->0@, self.entries@, year, month);
            }
        }
        r
    }

    /// Day totals of the pending bills of the month that have an amount:
    /// one item per day on which such a bill is due, in chronological
    /// order, each holding the sum of that day in Brazilian reais.
    pub fn daily_totals(&self, year: i32, month: u32) -> (r: Vec<DayBillTotal>)
        requires
            totals_fit(self.entries(), year, month),
        ensures
            are_daily_totals(r@, self.entries(), year, month),
            forall|i: int|
                0 <= i < r@.len() ==> (#[trigger] r@[i]).date.year == year && r@[i].date.month == month,
            forall|i: int, j: int|
                0 <= i < j < r@.len() ==> day_number((#[trigger] r@[i]).date) < day_number(
                    (#[trigger] r@[j]).date,
                ),
            forall|k: int|
                0 <= k < self.entries().len() && (#[trigger] self.entries()[k]).due_date.year == year
                    && self.entries()[k].due_date.month == month && self.entries()[k].status
                    == BillStatus::Pending && self.entries()[k].amount is Some ==> exists|i: int|
                    0 <= i < r@.len() && (#[trigger] r@[i]).date == self.entries()[k].due_date,
    {
        match self.try_daily_totals(year, month) {
            Some(v) => v,
            None => Vec::new(),
        }
    }

    /// Pending entries due between `today` and `days` days later, both
    /// included, in calendar order.
    pub fn find_upcoming_from(&self, today: Date, days: i64) -> (r: Vec<BillCalendarEntry>)
        requires
            today.valid(),
        ensures
            r@ == self.entries().filter(|e: BillCalendarEntry| upcoming(e, today, days)),
            forall|i: int|
                0 <= i < r@.len() ==> (#[trigger] r@[i]).status == BillStatus::Pending && day_number(
                    today,
                ) <= day_number(r@[i].due_date) <= day_number(today) + days,
            forall|j: int|
                0 <= j < self.entries().len() && (#[trigger] self.entries()[j]).status
                    == BillStatus::Pending && day_number(today) <= day_number(self.entries()[j].due_date)
                    <= day_number(today) + days ==> r@.contains(self.entries()[j]),
    {
        proof {
            use_type_invariant(self);
        }
        let ghost pred = |e: BillCalendarEntry| upcoming(e, today, days);
        let start = today.num_days_from_ce();
        let mut out: Vec<BillCalendarEntry> = Vec::new();
        let n = self.entries.len();
        let mut i: usize = 0;
        while i < n
            invariant
                n == self.entries@.len(),
                0 <= i <= n,
                start == day_number(today),
                dates_valid(self.entries@),
                out@ == self.entries@.take(i as int).filter(pred),
                pred == (|e: BillCalendarEntry| upcoming(e, today, days)),
            decreases n - i,
        {
            let ghost s1 = self.entries@.take(i + 1);
            proof {
                assert(s1.drop_last() =~= self.entries@.take(i as int));
                assert(s1.last() == self.entries@[i as int]);
                reveal_with_fuel(Seq::filter, 1);
                assert(s1.filter(pred) == if pred(s1.last()) {
                    s1.drop_last().filter(pred).push(s1.last())
                } else {
                    s1.drop_last().filter(pred)
                });
            }
            let e = &self.entries[i];
            if e.status == BillStatus::Pending {
                let due = e.due_date.num_days_from_ce();
                if start <= due && (due as i64) - (start as i64) <= days {
                    out.push(e.duplicate());
                }
            }
            i = i + 1;
        }
        proof {
            assert(self.entries@.take(n as int) == self.entries@);
            lemma_upcoming_listing(self.entries@, today, days);
        }
        out
    }

    /// Pending entries due within the next `days` days from today (today
    /// included), in calendar order. Today's date is read from the clock.
    pub fn find_upcoming(&self, days: i64) -> (r: Vec<BillCalendarEntry>)
        ensures
            exists|t: Date|
                t.valid() && r@ == self.entries().filter(|e: BillCalendarEntry| upcoming(e, t, days)),
    {
        let t = today();
        self.find_upcoming_from(t, days)
    }
}

} // verus!
