//! Splitting a purchase into installments over consecutive months.
use crate::shared::date::{Date, YearMonth, MAX_YEAR, MIN_YEAR};
use crate::shared::money::Money;
use vstd::arithmetic::div_mod::lemma_fundamental_div_mod;
use vstd::prelude::*;

verus! {

/// `a / n` rounded to the nearest integer, ties to the even neighbour
/// (`n > 0`). This is how a division is rounded to whole cents.
pub open spec fn div_round_half_even(a: int, n: int) -> int {
    let q = a / n;
    let r = a % n;
    if 2 * r < n {
        q
    } else if 2 * r > n {
        q + 1
    } else if q % 2 == 0 {
        q
    } else {
        q + 1
    }
}

/// Cents of each installment but the last when `total` cents are split
/// into `n` installments: the total divided by `n`, rounded to the cent.
pub open spec fn installment_base(total: int, n: int) -> int {
    div_round_half_even(total, n)
}

/// Cents of installment `i` (counted from 0) of `n`: the rounded share,
/// except for the last installment, which takes what is left of the total.
pub open spec fn installment_cents(total: int, n: int, i: int) -> int {
    if i == n - 1 {
        total - installment_base(total, n) * (n - 1)
    } else {
        installment_base(total, n)
    }
}

/// Sum, in cents, of the amounts of `s`.
pub open spec fn cents_sum(s: Seq<Money>) -> int
    decreases s.len(),
{
    if s.len() == 0 {
        0
    } else {
        cents_sum(s.drop_last()) + s.last().cents
    }
}

/// The month with index `k`, counting months from January of year 0.
pub open spec fn month_at(k: int) -> YearMonth {
    YearMonth { year: (k / 12) as i32, month: (k % 12 + 1) as u32 }
}

/// Index of the last month that holds dates.
pub open spec fn last_month_index() -> int {
    MAX_YEAR * 12 + 11
}

/// Months are numbered one after another: the month with index `k` has
/// index `k` and lies in January to December, so moving by `a` months and
/// then by `b` months is moving by `a + b` months.
pub proof fn lemma_month_at_index(k: int, a: int, b: int)
    requires
        i32::MIN <= k,
        0 <= a,
        0 <= b,
        k + a + b <= i32::MAX,
    ensures
        month_at(k).index() == k,
        1 <= month_at(k).month <= 12,
        month_at(month_at(k + a).index() + b) == month_at(k + a + b),
{
    lemma_fundamental_div_mod(k, 12);
    lemma_fundamental_div_mod(k + a, 12);
}

/// Rounding to the nearest multiple is off by at most half the divisor.
pub proof fn lemma_round_half_even_error(a: int, n: int)
    requires
        n > 0,
    ensures
        -n <= 2 * (a - n * div_round_half_even(a, n)) <= n,
{
    lemma_fundamental_div_mod(a, n);
    let q = a / n;
    let r = a % n;
    assert(0 <= r < n);
    assert(n * (q + 1) == n * q + n) by (nonlinear_arith);
}

/// Bounds of the base and last installment of a 64-bit total.
proof fn lemma_installment_bounds(a: int, n: int)
    requires
        i64::MIN <= a <= i64::MAX,
        1 <= n <= u32::MAX,
    ensures
        i64::MIN <= installment_base(a, n) <= i64::MAX,
        i64::MIN <= installment_cents(a, n, n - 1) <= i64::MAX,
        -0x8000_0000_0000_0000_0000_0000 <= installment_base(a, n) * (n - 1)
            <= 0x8000_0000_0000_0000_0000_0000,
{
    let b = installment_base(a, n);
    lemma_round_half_even_error(a, n);
    let e = a - n * b;
    if n == 1 {
        assert(n * b == b);
    } else {
        assert(-(n as int) <= 2 * e <= n);
        assert(2 * (n * b) <= 2 * a + n);
        assert(2 * (n * b) >= 2 * a - n);
        assert(-0x4000_0000_0000_0001 <= b <= 0x4000_0000_0000_0001) by (nonlinear_arith)
            requires
                2 * (n * b) <= 2 * a + n,
                2 * (n * b) >= 2 * a - n,
                2 <= n <= u32::MAX,
                i64::MIN <= a <= i64::MAX,
        ;
        assert(b * (n - 1) == n * b - b) by (nonlinear_arith);
        assert(-0x8000_0000_0000_0000_0000_0000 <= b * (n - 1) <= 0x8000_0000_0000_0000_0000_0000)
            by (nonlinear_arith)
            requires
                -0x4000_0000_0000_0001 <= b <= 0x4000_0000_0000_0001,
                2 <= n <= u32::MAX,
        ;
    }
}

/// The installments of a split add up to the total.
pub proof fn lemma_installments_sum(s: Seq<Money>, total: int, n: int)
    requires
        n >= 1,
        s.len() == n,
        forall|i: int| 0 <= i < n ==> (#[trigger] s[i]).cents == installment_cents(total, n, i),
    ensures
        cents_sum(s) == total,
{
    let b = installment_base(total, n);
    assert forall|k: int| 0 <= k <= n - 1 implies cents_sum(#[trigger] s.take(k)) == b * k by {
        lemma_prefix_sum(s, total, n, k);
    }
    assert(s.take(n - 1) =~= s.drop_last());
    assert(cents_sum(s.take(n - 1)) == b * (n - 1));
}

/// Every installment before the last holds the base amount, so a prefix of
/// `k` of them sums to `k` times it.
proof fn lemma_prefix_sum(s: Seq<Money>, total: int, n: int, k: int)
    requires
        n >= 1,
        s.len() == n,
        0 <= k <= n - 1,
        forall|i: int| 0 <= i < n ==> (#[trigger] s[i]).cents == installment_cents(total, n, i),
    ensures
        cents_sum(s.take(k)) == installment_base(total, n) * k,
    decreases k,
{
    let b = installment_base(total, n);
    if k > 0 {
        lemma_prefix_sum(s, total, n, k - 1);
        assert(s.take(k).drop_last() =~= s.take(k - 1));
        assert(s.take(k).last() == s[k - 1]);
        assert(b * k == b * (k - 1) + b) by (nonlinear_arith);
    } else {
        assert(s.take(0) =~= Seq::<Money>::empty());
    }
}

/// Splits `total` into `n` installments in its currency: each but the last
/// is the total divided by `n` rounded to the cent (ties to even), and the
/// last takes the rest, so that the installments add up to the total.
pub fn split_installments(total: Money, n: u32) -> (r: Vec<Money>)
    requires
        n >= 1,
    ensures
        r@.len() == n,
        forall|i: int|
            0 <= i < n ==> (#[trigger] r@[i]).currency == total.currency && r@[i].cents
                == installment_cents(total.cents as int, n as int, i),
        cents_sum(r@) == total.cents,
{
    let ghost a = total.cents as int;
    proof {
        lemma_installment_bounds(a, n as int);
        lemma_fundamental_div_mod(a, n as int);
    }
    let nn: i64 = n as i64;
    assert(i64::MIN <= a / (n as int) <= i64::MAX) by (nonlinear_arith)
        requires
            i64::MIN <= a <= i64::MAX,
            n >= 1,
            a == (n as int) * (a / (n as int)) + a % (n as int),
            0 <= a % (n as int) < n,
    ;
    let q: i64 = match total.cents.checked_div_euclid(nn) {
        Some(v) => v,
        None => 0,
    };
    let rem: i64 = match total.cents.checked_rem_euclid(nn) {
        Some(v) => v,
        None => 0,
    };
    assert(q == a / (n as int) && rem == a % (n as int));
    let base: i64 = if 2 * (rem as i128) < nn as i128 {
        q
    } else if 2 * (rem as i128) > nn as i128 {
        q + 1
    } else if q % 2 == 0 {
        q
    } else {
        q + 1
    };
    assert(base == installment_base(a, n as int));
    let last_i128: i128 = total.cents as i128 - (base as i128) * ((nn - 1) as i128);
    let last: i64 = last_i128 as i64;
    let mut out: Vec<Money> = Vec::new();
    let mut i: u32 = 0;
    while i < n
        invariant
            0 <= i <= n,
            n >= 1,
            out@.len() == i,
            a == total.cents,
            base == installment_base(a, n as int),
            last == installment_cents(a, n as int, n - 1),
            forall|j: int|
                0 <= j < i ==> (#[trigger] out@[j]).currency == total.currency && out@[j].cents
                    == installment_cents(a, n as int, j),
        decreases n - i,
    {
        if i + 1 == n {
            out.push(Money { cents: last, currency: total.currency });
        } else {
            out.push(Money { cents: base, currency: total.currency });
        }
        i = i + 1;
    }
    proof {
        lemma_installments_sum(out@, a, n as int);
    }
    out
}

/// The month `months` months after `ym`, in any year, before or after the
/// start of the era.
pub fn add_months(ym: &YearMonth, months: u32) -> (r: YearMonth)
    requires
        1 <= ym.month <= 12,
        i32::MIN <= ym.year * 12,
        ym.year * 12 + ym.month <= i32::MAX,
        months <= i32::MAX,
        ym.index() + months <= i32::MAX,
    ensures
        r == month_at(ym.index() + months),
        r.index() == ym.index() + months,
        1 <= r.month <= 12,
{
    let total: i64 = ym.year as i64 * 12 + ym.month as i64 - 1 + months as i64;
    proof {
        lemma_fundamental_div_mod(total as int, 12);
    }
    let y: i64 = match total.checked_div_euclid(12) {
        Some(v) => v,
        None => 0,
    };
    let m: i64 = match total.checked_rem_euclid(12) {
        Some(v) => v,
        None => 0,
    };
    assert(y == (total as int) / 12 && m == (total as int) % 12);
    YearMonth { year: y as i32, month: m as u32 + 1 }
}

/// One installment of a purchase split over consecutive months.
#[derive(Debug, Clone, Copy)]
pub struct Installment {
    /// Position of the installment, from 1.
    pub number: u32,
    /// Amount of the installment.
    pub amount: Money,
    /// Month of the invoice that receives the installment.
    pub reference_month: YearMonth,
    /// First day of that month, recorded as the installment's purchase date.
    pub first_day: Date,
}

/// The installments of a purchase of `total` split into `count`
/// installments, the first in `start` and each following one a month
/// later.
pub fn plan_installments(total: Money, count: u32, start: YearMonth) -> (r: Vec<Installment>)
    requires
        count >= 1,
        1 <= start.month <= 12,
        MIN_YEAR * 12 <= start.index(),
        start.index() + count - 1 <= last_month_index(),
    ensures
        r@.len() == count,
        forall|i: int|
            0 <= i < count ==> {
                &&& (#[trigger] r@[i]).number == i + 1
                &&& r@[i].amount.currency == total.currency
                &&& r@[i].amount.cents == installment_cents(total.cents as int, count as int, i)
                &&& r@[i].reference_month == month_at(start.index() + i)
                &&& r@[i].first_day == (Date {
                    year: r@[i].reference_month.year,
                    month: r@[i].reference_month.month,
                    day: 1,
                })
                &&& r@[i].first_day.valid()
            },
{
    let amounts = split_installments(total, count);
    let mut out: Vec<Installment> = Vec::new();
    let mut i: u32 = 0;
    while i < count
        invariant
            0 <= i <= count,
            amounts@.len() == count,
            1 <= start.month <= 12,
            MIN_YEAR * 12 <= start.index(),
            start.index() + count - 1 <= last_month_index(),
            forall|j: int|
                0 <= j < count ==> (#[trigger] amounts@[j]).currency == total.currency
                    && amounts@[j].cents == installment_cents(total.cents as int, count as int, j),
            out@.len() == i,
            forall|j: int|
                0 <= j < i ==> {
                    &&& (#[trigger] out@[j]).number == j + 1
                    &&& out@[j].amount == amounts@[j]
                    &&& out@[j].reference_month == month_at(start.index() + j)
                    &&& out@[j].first_day == (Date {
                        year: out@[j].reference_month.year,
                        month: out@[j].reference_month.month,
                        day: 1,
                    })
                    &&& out@[j].first_day.valid()
                },
        decreases count - i,
    {
        let month = add_months(&start, i);
        proof {
            lemma_fundamental_div_mod(start.index() + i, 12);
        }
        let first_day = month.first_day();
        out.push(Installment { number: i + 1, amount: amounts[i as usize], reference_month: month, first_day });
        i = i + 1;
    }
    out
}

} // verus!
