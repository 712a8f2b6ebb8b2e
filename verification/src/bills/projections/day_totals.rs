//! Daily totals of the bill calendar: which days of a month have pending
//! bills with a known amount, and how much falls due on each of them.
use crate::bills::domain::bill::BillStatus;
use crate::bills::projections::bill_calendar::{due_in_month, BillCalendarEntry, DayBillTotal};
use crate::shared::date::{date_lt, day_number, lemma_date_order_day_number, Date};
use crate::shared::money::{Currency, Money};
use vstd::prelude::*;

verus! {

/// `e` counts toward the daily totals of the month: it is due in the month,
/// still pending and has a known amount.
pub open spec fn counts_toward_totals(e: BillCalendarEntry, year: i32, month: u32) -> bool {
    due_in_month(e, year, month) && e.status == BillStatus::Pending && e.amount is Some
}

/// Some entry of `s` that counts toward the totals of the month is due on
/// `date`.
pub open spec fn has_bills_on(s: Seq<BillCalendarEntry>, year: i32, month: u32, date: Date) -> bool {
    exists|k: int|
        0 <= k < s.len() && counts_toward_totals(#[trigger] s[k], year, month) && s[k].due_date
            == date
}

/// Sum, in cents, of the entries of `s` that count toward the totals of the
/// month and are due on `date`.
pub open spec fn day_sum(s: Seq<BillCalendarEntry>, year: i32, month: u32, date: Date) -> int
    decreases s.len(),
{
    if s.len() == 0 {
        0
    } else {
        let e = s.last();
        day_sum(s.drop_last(), year, month, date) + if counts_toward_totals(e, year, month)
            && e.due_date == date {
            e.amount->0.cents as int
        } else {
            0
        }
    }
}

/// `totals` are the daily totals of `s` for the month: in chronological
/// order, one item for each day on which an entry that counts is due and
/// for no other day, each holding the sum of that day in Brazilian reais.
pub open spec fn are_daily_totals(
    totals: Seq<DayBillTotal>,
    s: Seq<BillCalendarEntry>,
    year: i32,
    month: u32,
) -> bool {
    &&& forall|i: int, j: int|
        0 <= i < j < totals.len() ==> date_lt(#[trigger] totals[i].date, #[trigger] totals[j].date)
    &&& forall|d: Date|
        #![trigger has_bills_on(s, year, month, d)]
        has_bills_on(s, year, month, d) <==> exists|i: int|
            0 <= i < totals.len() && (#[trigger] totals[i]).date == d
    &&& forall|i: int|
        0 <= i < totals.len() ==> (#[trigger] totals[i]).total == (Money {
            cents: day_sum(s, year, month, totals[i].date) as i64,
            currency: Currency::BRL,
        })
}

/// Daily totals speak only of the requested month: each total is dated in
/// that year and month, on the due date of a pending entry with an amount.
pub proof fn lemma_daily_totals_in_month(
    totals: Seq<DayBillTotal>,
    s: Seq<BillCalendarEntry>,
    year: i32,
    month: u32,
)
    requires
        are_daily_totals(totals, s, year, month),
    ensures
        forall|i: int|
            0 <= i < totals.len() ==> (#[trigger] totals[i]).date.year == year && totals[i].date.month
                == month,
        forall|i: int|
            0 <= i < totals.len() ==> exists|k: int|
                0 <= k < s.len() && (#[trigger] s[k]).due_date == (#[trigger] totals[i]).date
                    && s[k].status == BillStatus::Pending && s[k].amount is Some,
{
    assert forall|i: int| 0 <= i < totals.len() implies (#[trigger] totals[i]).date.year == year
        && totals[i].date.month == month by {
        lemma_total_has_bill(totals, s, year, month, i);
    }
    assert forall|i: int| 0 <= i < totals.len() implies exists|k: int|
        0 <= k < s.len() && (#[trigger] s[k]).due_date == (#[trigger] totals[i]).date
            && s[k].status == BillStatus::Pending && s[k].amount is Some by {
        lemma_total_has_bill(totals, s, year, month, i);
    }
}

/// Daily totals leave out no day of the month with a pending bill: each
/// pending entry with an amount due in that year and month has the total of
/// its day.
pub proof fn lemma_daily_totals_complete(
    totals: Seq<DayBillTotal>,
    s: Seq<BillCalendarEntry>,
    year: i32,
    month: u32,
)
    requires
        are_daily_totals(totals, s, year, month),
    ensures
        forall|k: int|
            0 <= k < s.len() && (#[trigger] s[k]).due_date.year == year && s[k].due_date.month == month
                && s[k].status == BillStatus::Pending && s[k].amount is Some ==> exists|i: int|
                0 <= i < totals.len() && (#[trigger] totals[i]).date == s[k].due_date,
{
    assert forall|k: int|
        0 <= k < s.len() && (#[trigger] s[k]).due_date.year == year && s[k].due_date.month == month
            && s[k].status == BillStatus::Pending && s[k].amount is Some implies exists|i: int|
        0 <= i < totals.len() && (#[trigger] totals[i]).date == s[k].due_date by {
        lemma_bill_has_total(totals, s, year, month, k);
    }
}

/// Daily totals come in the order of the calendar: when every entry has a
/// valid due date, each total's day count from the start of the era is
/// smaller than the next one's.
pub proof fn lemma_daily_totals_ascending(
    totals: Seq<DayBillTotal>,
    s: Seq<BillCalendarEntry>,
    year: i32,
    month: u32,
)
    requires
        are_daily_totals(totals, s, year, month),
        forall|k: int| 0 <= k < s.len() ==> (#[trigger] s[k]).due_date.valid(),
    ensures
        forall|i: int, j: int|
            0 <= i < j < totals.len() ==> day_number((#[trigger] totals[i]).date) < day_number(
                (#[trigger] totals[j]).date,
            ),
{
    assert forall|i: int, j: int| 0 <= i < j < totals.len() implies day_number(
        (#[trigger] totals[i]).date,
    ) < day_number((#[trigger] totals[j]).date) by {
        lemma_total_has_bill(totals, s, year, month, i);
        lemma_total_has_bill(totals, s, year, month, j);
        let ki = choose|k: int|
            0 <= k < s.len() && (#[trigger] s[k]).due_date == totals[i].date && s[k].status
                == BillStatus::Pending && s[k].amount is Some;
        let kj = choose|k: int|
            0 <= k < s.len() && (#[trigger] s[k]).due_date == totals[j].date && s[k].status
                == BillStatus::Pending && s[k].amount is Some;
        assert(s[ki].due_date.valid() && s[kj].due_date.valid());
        lemma_date_order_day_number(totals[i].date, totals[j].date);
    }
}

/// The day of a daily total is the due date of a counted entry.
proof fn lemma_total_has_bill(totals: Seq<DayBillTotal>, s: Seq<BillCalendarEntry>, year: i32, month: u32, i: int)
    requires
        are_daily_totals(totals, s, year, month),
        0 <= i < totals.len(),
    ensures
        totals[i].date.year == year && totals[i].date.month == month,
        exists|k: int|
            0 <= k < s.len() && (#[trigger] s[k]).due_date == totals[i].date && s[k].status
                == BillStatus::Pending && s[k].amount is Some,
{
    let d = totals[i].date;
    assert(exists|i2: int| 0 <= i2 < totals.len() && (#[trigger] totals[i2]).date == d);
    assert(has_bills_on(s, year, month, d));
    let k = choose|k: int|
        0 <= k < s.len() && counts_toward_totals(#[trigger] s[k], year, month) && s[k].due_date == d;
    assert(s[k].due_date == d && s[k].status == BillStatus::Pending && s[k].amount is Some);
}

/// A counted entry's due date has a daily total.
proof fn lemma_bill_has_total(totals: Seq<DayBillTotal>, s: Seq<BillCalendarEntry>, year: i32, month: u32, k: int)
    requires
        are_daily_totals(totals, s, year, month),
        0 <= k < s.len(),
        s[k].due_date.year == year && s[k].due_date.month == month,
        s[k].status == BillStatus::Pending && s[k].amount is Some,
    ensures
        exists|i: int| 0 <= i < totals.len() && (#[trigger] totals[i]).date == s[k].due_date,
{
    assert(counts_toward_totals(s[k], year, month));
    assert(has_bills_on(s, year, month, s[k].due_date));
}

/// Every day total of the month fits in 64 bits of cents.
pub open spec fn totals_fit(s: Seq<BillCalendarEntry>, year: i32, month: u32) -> bool {
    forall|d: Date|
        #[trigger] has_bills_on(s, year, month, d) ==> i64::MIN <= day_sum(s, year, month, d)
            <= i64::MAX
}

/// The dates are strictly increasing.
spec fn strictly_sorted(dates: Seq<Date>) -> bool {
    forall|a: int, b: int| 0 <= a < b < dates.len() ==> date_lt(#[trigger] dates[a], #[trigger] dates[b])
}

/// Running state of the day totals after reading the entries of `s`:
/// `dates` lists, in order, the days on which a counted entry of `s` is
/// due, and `sums` holds the sum of each of those days.
spec fn partial_totals(
    dates: Seq<Date>,
    sums: Seq<i128>,
    s: Seq<BillCalendarEntry>,
    year: i32,
    month: u32,
) -> bool {
    &&& dates.len() == sums.len()
    &&& strictly_sorted(dates)
    &&& forall|d: Date|
        #![trigger dates.contains(d)]
        #![trigger has_bills_on(s, year, month, d)]
        dates.contains(d) <==> has_bills_on(s, year, month, d)
    &&& forall|a: int| 0 <= a < dates.len() ==> #[trigger] sums[a] == day_sum(s, year, month, dates[a])
}

/// A day sum of `s` is bounded by the number of entries times the largest
/// magnitude of a 64-bit amount.
proof fn lemma_day_sum_bound(s: Seq<BillCalendarEntry>, year: i32, month: u32, date: Date)
    ensures
        -(s.len() * 0x8000_0000_0000_0000) <= day_sum(s, year, month, date) <= s.len()
            * 0x8000_0000_0000_0000,
    decreases s.len(),
{
    if s.len() > 0 {
        lemma_day_sum_bound(s.drop_last(), year, month, date);
    }
}

/// A day on which no counted entry is due sums to zero.
proof fn lemma_day_sum_absent(s: Seq<BillCalendarEntry>, year: i32, month: u32, date: Date)
    requires
        !has_bills_on(s, year, month, date),
    ensures
        day_sum(s, year, month, date) == 0,
    decreases s.len(),
{
    if s.len() > 0 {
        let t = s.drop_last();
        if has_bills_on(t, year, month, date) {
            let k = choose|k: int|
                0 <= k < t.len() && counts_toward_totals(#[trigger] t[k], year, month) && t[k].due_date
                    == date;
            assert(s[k] == t[k]);
        }
        lemma_day_sum_absent(t, year, month, date);
    }
}

/// Reading one more entry adds its amount to the sum of its own day only,
/// and adds its day to the days that have bills when it counts.
proof fn lemma_step(s: Seq<BillCalendarEntry>, i: int, year: i32, month: u32, date: Date)
    requires
        0 <= i < s.len(),
    ensures
        day_sum(s.take(i + 1), year, month, date) == day_sum(s.take(i), year, month, date) + if counts_toward_totals(s[i], year, month) && s[i].due_date == date {
            s[i].amount->0.cents as int
        } else {
            0
        },
        has_bills_on(s.take(i + 1), year, month, date) <==> has_bills_on(s.take(i), year, month, date)
            || (counts_toward_totals(s[i], year, month) && s[i].due_date == date),
{
    let t = s.take(i + 1);
    let t0 = s.take(i);
    assert(t.drop_last() =~= t0);
    assert(t.last() == s[i]);
    if has_bills_on(t, year, month, date) {
        let k = choose|k: int|
            0 <= k < t.len() && counts_toward_totals(#[trigger] t[k], year, month) && t[k].due_date
                == date;
        if k < i {
            assert(t0[k] == t[k]);
        }
    }
    if has_bills_on(t0, year, month, date) {
        let k = choose|k: int|
            0 <= k < t0.len() && counts_toward_totals(#[trigger] t0[k], year, month) && t0[k].due_date
                == date;
        assert(t[k] == t0[k]);
    }
    if counts_toward_totals(s[i], year, month) && s[i].due_date == date {
        assert(t[i] == s[i]);
    }
}

/// Reading an entry that does not count leaves the totals as they are.
proof fn lemma_partial_skip(
    dates: Seq<Date>,
    sums: Seq<i128>,
    s: Seq<BillCalendarEntry>,
    i: int,
    year: i32,
    month: u32,
)
    requires
        0 <= i < s.len(),
        partial_totals(dates, sums, s.take(i), year, month),
        !counts_toward_totals(s[i], year, month),
    ensures
        partial_totals(dates, sums, s.take(i + 1), year, month),
{
    assert forall|d: Date| dates.contains(d) <==> has_bills_on(s.take(i + 1), year, month, d) by {
        lemma_step(s, i, year, month, d);
    }
    assert forall|a: int| 0 <= a < dates.len() implies #[trigger] sums[a] == day_sum(
        s.take(i + 1),
        year,
        month,
        dates[a],
    ) by {
        lemma_step(s, i, year, month, dates[a]);
    }
}

/// Reading a counted entry due on a day already listed adds its amount to
/// that day.
proof fn lemma_partial_add(
    dates: Seq<Date>,
    sums: Seq<i128>,
    s: Seq<BillCalendarEntry>,
    i: int,
    year: i32,
    month: u32,
    p: int,
    v: i128,
)
    requires
        0 <= i < s.len(),
        partial_totals(dates, sums, s.take(i), year, month),
        counts_toward_totals(s[i], year, month),
        0 <= p < dates.len(),
        dates[p] == s[i].due_date,
        v == sums[p] + s[i].amount->0.cents,
    ensures
        partial_totals(dates, sums.update(p, v), s.take(i + 1), year, month),
{
    let m1 = sums.update(p, v);
    assert(dates.contains(dates[p]));
    assert forall|d: Date| dates.contains(d) <==> has_bills_on(s.take(i + 1), year, month, d) by {
        lemma_step(s, i, year, month, d);
    }
    assert forall|a: int| 0 <= a < dates.len() implies #[trigger] m1[a] == day_sum(
        s.take(i + 1),
        year,
        month,
        dates[a],
    ) by {
        lemma_step(s, i, year, month, dates[a]);
        if a < p {
            assert(date_lt(dates[a], dates[p]));
        } else if a > p {
            assert(date_lt(dates[p], dates[a]));
        }
    }
}

/// Reading a counted entry due on a day not yet listed inserts that day, in
/// order, with the entry's amount.
proof fn lemma_partial_insert(
    dates: Seq<Date>,
    sums: Seq<i128>,
    s: Seq<BillCalendarEntry>,
    i: int,
    year: i32,
    month: u32,
    p: int,
    v: i128,
)
    requires
        0 <= i < s.len(),
        partial_totals(dates, sums, s.take(i), year, month),
        counts_toward_totals(s[i], year, month),
        0 <= p <= dates.len(),
        forall|a: int| 0 <= a < p ==> date_lt(#[trigger] dates[a], s[i].due_date),
        p < dates.len() ==> !date_lt(dates[p], s[i].due_date) && dates[p] != s[i].due_date,
        v == s[i].amount->0.cents,
    ensures
        partial_totals(dates.insert(p, s[i].due_date), sums.insert(p, v), s.take(i + 1), year, month),
{
    let due = s[i].due_date;
    let d1 = dates.insert(p, due);
    let m1 = sums.insert(p, v);
    assert forall|a: int| p <= a < dates.len() implies date_lt(due, #[trigger] dates[a]) by {
        if a > p {
            assert(date_lt(dates[p], dates[a]));
        }
    }
    assert(!dates.contains(due)) by {
        if dates.contains(due) {
            let a = choose|a: int| 0 <= a < dates.len() && dates[a] == due;
            if a < p {
                assert(date_lt(dates[a], due));
            } else {
                assert(date_lt(due, dates[a]));
            }
        }
    }
    lemma_day_sum_absent(s.take(i), year, month, due);
    lemma_step(s, i, year, month, due);
    assert forall|d: Date| d1.contains(d) <==> has_bills_on(s.take(i + 1), year, month, d) by {
        lemma_step(s, i, year, month, d);
        if d1.contains(d) {
            let a = choose|a: int| 0 <= a < d1.len() && d1[a] == d;
            if a < p {
                assert(dates[a] == d);
            } else if a > p {
                assert(dates[a - 1] == d);
            }
        }
        if dates.contains(d) {
            let a = choose|a: int| 0 <= a < dates.len() && dates[a] == d;
            if a < p {
                assert(d1[a] == d);
            } else {
                assert(d1[a + 1] == d);
            }
        }
        if d == due {
            assert(d1[p] == d);
        }
    }
    assert forall|a: int| 0 <= a < d1.len() implies #[trigger] m1[a] == day_sum(
        s.take(i + 1),
        year,
        month,
        d1[a],
    ) by {
        if a < p {
            lemma_step(s, i, year, month, dates[a]);
            assert(date_lt(dates[a], due));
        } else if a > p {
            lemma_step(s, i, year, month, dates[a - 1]);
            assert(date_lt(due, dates[a - 1]));
        }
    }
    assert forall|a: int, b: int| 0 <= a < b < d1.len() implies date_lt(
        #[trigger] d1[a],
        #[trigger] d1[b],
    ) by {
        if b < p {
            assert(date_lt(dates[a], dates[b]));
        } else if b == p {
            assert(date_lt(dates[a], due));
        } else if a < p {
            assert(date_lt(dates[a], due));
            assert(date_lt(due, dates[b - 1]));
        } else if a == p {
            assert(date_lt(due, dates[b - 1]));
        } else {
            assert(date_lt(dates[a - 1], dates[b - 1]));
        }
    }
}

/// Index of the first date of `dates` that is not before `d`, so that
/// inserting `d` there keeps `dates` in order.
fn find_slot(dates: &Vec<Date>, d: &Date) -> (p: usize)
    ensures
        p <= dates@.len(),
        forall|a: int| 0 <= a < p ==> date_lt(#[trigger] dates@[a], *d),
        p < dates@.len() ==> !date_lt(dates@[p as int], *d),
{
    let mut p: usize = 0;
    while p < dates.len()
        invariant
            p <= dates@.len(),
            forall|a: int| 0 <= a < p ==> date_lt(#[trigger] dates@[a], *d),
        decreases dates@.len() - p,
    {
        if !dates[p].is_before(d) {
            return p;
        }
        p = p + 1;
    }
    p
}

/// Reads entry `i` of `s` (which is `e`) into the running day totals.
fn accumulate(
    dates: &mut Vec<Date>,
    sums: &mut Vec<i128>,
    Ghost(s): Ghost<Seq<BillCalendarEntry>>,
    i: usize,
    e: &BillCalendarEntry,
    year: i32,
    month: u32,
)
    requires
        i < s.len() <= usize::MAX,
        s[i as int] == *e,
        partial_totals(old(dates)@, old(sums)@, s.take(i as int), year, month),
    ensures
        partial_totals(final(dates)@, final(sums)@, s.take(i + 1), year, month),
{
    let counted = e.due_date.year == year && e.due_date.month == month && e.status
        == BillStatus::Pending && e.amount.is_some();
    if !counted {
        proof {
            lemma_partial_skip(dates@, sums@, s, i as int, year, month);
        }
        return ;
    }
    let c: i64 = match e.amount {
        Some(m) => m.cents,
        None => 0,
    };
    let due = e.due_date;
    let p = find_slot(dates, &due);
    if p < dates.len() && dates[p].same_day(&due) {
        proof {
            assert(i + 1 <= usize::MAX);
            lemma_day_sum_bound(s.take(i + 1), year, month, due);
            lemma_step(s, i as int, year, month, due);
            assert((i + 1) * 0x8000_0000_0000_0000 < 0x7fff_ffff_ffff_ffff_ffff_ffff_ffff_ffff)
                by (nonlinear_arith)
                requires
                    i + 1 <= 0xffff_ffff_ffff_ffff,
            ;
        }
        let old_sum = sums[p];
        let v = old_sum + c as i128;
        proof {
            lemma_partial_add(dates@, sums@, s, i as int, year, month, p as int, v);
        }
        sums.set(p, v);
    } else {
        proof {
            lemma_partial_insert(dates@, sums@, s, i as int, year, month, p as int, c as i128);
        }
        dates.insert(p, due);
        sums.insert(p, c as i128);
    }
}

/// Turns the day totals of all of `s` into their public form; `None` when
/// a total does not fit in 64 bits of cents.
fn to_day_totals(
    dates: &Vec<Date>,
    sums: &Vec<i128>,
    Ghost(s): Ghost<Seq<BillCalendarEntry>>,
    year: i32,
    month: u32,
) -> (r: Option<Vec<DayBillTotal>>)
    requires
        partial_totals(dates@, sums@, s, year, month),
    ensures
        r is Some <==> totals_fit(s, year, month),
        r matches Some(v) ==> are_daily_totals(v@, s, year, month),
{
    let mut out: Vec<DayBillTotal> = Vec::new();
    let m = dates.len();
    let mut a: usize = 0;
    while a < m
        invariant
            m == dates@.len(),
            0 <= a <= m,
            partial_totals(dates@, sums@, s, year, month),
            out@.len() == a,
            forall|b: int|
                0 <= b < a ==> (#[trigger] out@[b]).date == dates@[b] && out@[b].total == (Money {
                    cents: sums@[b] as i64,
                    currency: Currency::BRL,
                }),
            forall|b: int| 0 <= b < a ==> i64::MIN <= #[trigger] sums@[b] <= i64::MAX,
        decreases m - a,
    {
        let total = sums[a];
        if total < i64::MIN as i128 || total > i64::MAX as i128 {
            proof {
                assert(dates@.contains(dates@[a as int]));
                assert(has_bills_on(s, year, month, dates@[a as int]));
            }
            return None;
        }
        out.push(
            DayBillTotal { date: dates[a], total: Money { cents: total as i64, currency: Currency::BRL } },
        );
        a = a + 1;
    }
    proof {
        assert forall|d: Date| has_bills_on(s, year, month, d) implies i64::MIN <= day_sum(
            s,
            year,
            month,
            d,
        ) <= i64::MAX by {
            assert(dates@.contains(d));
            let b = choose|b: int| 0 <= b < dates@.len() && dates@[b] == d;
            assert(sums@[b] == day_sum(s, year, month, dates@[b]));
        }
        assert forall|d: Date|
            has_bills_on(s, year, month, d) <==> exists|b: int|
                0 <= b < out@.len() && (#[trigger] out@[b]).date == d by {
            if has_bills_on(s, year, month, d) {
                assert(dates@.contains(d));
                let b = choose|b: int| 0 <= b < dates@.len() && dates@[b] == d;
                assert(out@[b].date == d);
            }
            if exists|b: int| 0 <= b < out@.len() && (#[trigger] out@[b]).date == d {
                let b = choose|b: int| 0 <= b < out@.len() && (#[trigger] out@[b]).date == d;
                assert(dates@[b] == d);
                assert(dates@.contains(d));
            }
        }
        assert forall|b: int| 0 <= b < out@.len() implies (#[trigger] out@[b]).total == (Money {
            cents: day_sum(s, year, month, out@[b].date) as i64,
            currency: Currency::BRL,
        }) by {
            assert(sums@[b] == day_sum(s, year, month, dates@[b]));
        }
        assert forall|b: int, c: int| 0 <= b < c < out@.len() implies date_lt(
            #[trigger] out@[b].date,
            #[trigger] out@[c].date,
        ) by {
            assert(date_lt(dates@[b], dates@[c]));
        }
    }
    Some(out)
}

/// The day totals of `s` for the month; `None` when some day's total does
/// not fit in 64 bits of cents.
pub(crate) fn compute_daily_totals(s: &Vec<BillCalendarEntry>, year: i32, month: u32) -> (r: Option<
    Vec<DayBillTotal>,
>)
    ensures
        r is Some <==> totals_fit(s@, year, month),
        r matches Some(v) ==> are_daily_totals(v@, s@, year, month),
{
    let ghost q = s@;
    let n = s.len();
    let mut dates: Vec<Date> = Vec::new();
    let mut sums: Vec<i128> = Vec::new();
    let mut i: usize = 0;
    proof {
        assert(q.take(0) =~= Seq::<BillCalendarEntry>::empty());
    }
    while i < n
        invariant
            q == s@,
            n == q.len(),
            0 <= i <= n,
            partial_totals(dates@, sums@, q.take(i as int), year, month),
        decreases n - i,
    {
        accumulate(&mut dates, &mut sums, Ghost(q), i, &s[i], year, month);
        i = i + 1;
    }
    proof {
        assert(q.take(n as int) =~= q);
    }
    to_day_totals(&dates, &sums, Ghost(q), year, month)
}

} // verus!
