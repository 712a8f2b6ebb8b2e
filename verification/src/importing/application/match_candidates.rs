//! Query: find, for each row of a statement, a transaction of the ledger
//! that it may be.
use crate::importing::domain::raw_transaction::RawTransaction;
use crate::importing::application::access::{is_earliest, is_latest};
use crate::ledger::transaction::Transaction;
use crate::shared::date::{
    day_number, lemma_day_number_bounds, max_day_number, min_day_number, Date, Period,
};
use crate::shared::ids::{AccountID, Principal, TransactionID};
use crate::shared::money::Money;
use std::sync::Arc;
use vstd::prelude::*;

verus! {

/// Command to find potential matches between raw transactions and existing
/// ones.
#[derive(Debug, Clone)]
pub struct MatchCandidatesCommand {
    pub principal: Principal,
    /// Target account to match against.
    pub account_id: AccountID,
    /// Parsed raw transactions to find matches for.
    pub transactions: Vec<RawTransaction>,
    /// Number of days before and after the rows' dates to search.
    pub date_tolerance_days: u32,
    /// Amounts must be equal (`true`) or within 1% of each other (`false`).
    pub exact_amount: bool,
}

/// A raw transaction paired with a potential match from the ledger.
#[derive(Debug, Clone)]
pub struct MatchCandidate {
    /// The raw transaction being imported.
    pub raw: RawTransaction,
    /// The matched existing transaction, if any.
    pub existing: Option<ExistingMatch>,
}

/// Summary of an existing transaction that matched a raw transaction.
#[derive(Debug, Clone)]
pub struct ExistingMatch {
    pub transaction_id: TransactionID,
    pub date: Date,
    pub amount: Money,
    pub description: String,
}

/// Handler that finds candidate matches: once the account is checked (see
/// [`check_account`](crate::importing::application::access::check_account)),
/// the account's transactions over the rows' period widened by the
/// tolerance (see [`MatchCandidatesHandler::search_window`]) are matched
/// with the rows.
pub struct MatchCandidatesHandler<A, T> {
    pub account_repository: Arc<A>,
    pub transaction_repository: Arc<T>,
}

/// Absolute value of an integer.
pub open spec fn abs_int(x: int) -> int {
    if x < 0 {
        -x
    } else {
        x
    }
}

/// The two amounts are within 1% of each other: equal amounts are close,
/// a zero amount is close to no other, and otherwise the difference times
/// one hundred is below the larger magnitude.
pub open spec fn close_amounts(a: Money, b: Money) -> bool {
    if a == b {
        true
    } else if a.cents == 0 || b.cents == 0 {
        false
    } else {
        let base = if abs_int(a.cents as int) > abs_int(b.cents as int) {
            abs_int(a.cents as int)
        } else {
            abs_int(b.cents as int)
        };
        abs_int(a.cents - b.cents) * 100 < base
    }
}

/// Closeness of amounts is reflexive and symmetric, and a zero amount is
/// close only to itself.
pub proof fn lemma_close_amounts_symmetric(a: Money, b: Money)
    ensures
        close_amounts(a, a),
        close_amounts(a, b) == close_amounts(b, a),
        a.cents == 0 && a != b ==> !close_amounts(a, b),
        comparable(a, b) == comparable(b, a),
{
}

/// The closeness of the two amounts can be judged: unless they are equal or
/// one is zero, they are in the same currency.
pub open spec fn comparable(a: Money, b: Money) -> bool {
    a == b || a.cents == 0 || b.cents == 0 || a.currency == b.currency
}

/// Whether two amounts are within 1% of each other (see [`close_amounts`]).
pub fn amounts_close(a: Money, b: Money) -> (r: bool)
    requires
        comparable(a, b),
    ensures
        r == close_amounts(a, b),
{
    if a == b {
        return true;
    }
    if a.cents == 0 || b.cents == 0 {
        return false;
    }
    let x: i128 = a.cents as i128;
    let y: i128 = b.cents as i128;
    let d: i128 = x - y;
    let diff: i128 = if d < 0 {
        -d
    } else {
        d
    };
    let ax: i128 = if x < 0 {
        -x
    } else {
        x
    };
    let ay: i128 = if y < 0 {
        -y
    } else {
        y
    };
    let base: i128 = if ax > ay {
        ax
    } else {
        ay
    };
    diff * 100 < base
}

/// The amount of `t` matches that of a row: equal when `exact`, within 1%
/// otherwise.
pub open spec fn amount_matches(t: Money, raw: Money, exact: bool) -> bool {
    if exact {
        t == raw
    } else {
        close_amounts(t, raw)
    }
}

/// `t` may be the row `raw`: dated at most `tolerance` days before or after
/// the row, with a matching amount.
pub open spec fn is_match(t: Transaction, raw: RawTransaction, exact: bool, tolerance: u32) -> bool {
    abs_int(day_number(t.date) - day_number(raw.date)) <= tolerance && amount_matches(
        t.amount,
        raw.amount,
        exact,
    )
}

/// Every date of the transactions is a valid date.
pub open spec fn dates_valid(existing: Seq<Transaction>) -> bool {
    forall|j: int| 0 <= j < existing.len() ==> (#[trigger] existing[j]).date.valid()
}

/// What makes a transaction a match for a row, in calendar days and
/// amounts: its day number (the day count from the start of the era) is at
/// most `tolerance` away from the row's, its amount equals the row's when
/// `exact` and is within 1% of it otherwise; and a transaction of the row's
/// own date and amount always matches.
pub proof fn lemma_match_window(t: Transaction, raw: RawTransaction, exact: bool, tolerance: u32)
    ensures
        is_match(t, raw, exact, tolerance) ==> day_number(raw.date) - tolerance <= day_number(t.date)
            <= day_number(raw.date) + tolerance,
        is_match(t, raw, exact, tolerance) && exact ==> t.amount == raw.amount,
        is_match(t, raw, exact, tolerance) && !exact ==> close_amounts(t.amount, raw.amount),
        t.date == raw.date && t.amount == raw.amount ==> is_match(t, raw, exact, tolerance),
{
}

/// The summary of `t` that a match reports.
pub open spec fn summary_of(t: Transaction) -> ExistingMatch {
    ExistingMatch { transaction_id: t.id, date: t.date, amount: t.amount, description: t.description }
}

/// Every amount compared while looking for the first match of `raw` in
/// `existing` can be judged: those of the transactions up to and including
/// the first whose amount matches.
pub open spec fn search_comparable(existing: Seq<Transaction>, raw: RawTransaction, exact: bool, tolerance: u32) -> bool {
    !exact ==> forall|j: int|
        0 <= j < existing.len() && (forall|k: int|
            0 <= k < j ==> !is_match(#[trigger] existing[k], raw, exact, tolerance)) ==> comparable(
            #[trigger] existing[j].amount,
            raw.amount,
        )
}

/// `m` is the answer for `raw`: the summary of the first transaction of
/// `existing` that may be it, or none when there is no such transaction.
pub open spec fn first_match(existing: Seq<Transaction>, raw: RawTransaction, exact: bool, tolerance: u32, m: Option<ExistingMatch>) -> bool {
    match m {
        None => forall|j: int| 0 <= j < existing.len() ==> !is_match(#[trigger] existing[j], raw, exact, tolerance),
        Some(x) => exists|j: int|
            0 <= j < existing.len() && is_match(#[trigger] existing[j], raw, exact, tolerance) && (forall|k: int|
                0 <= k < j ==> !is_match(#[trigger] existing[k], raw, exact, tolerance)) && x == summary_of(existing[j]),
    }
}

/// The summary of the first transaction of `existing` that may be `raw`;
/// `None` when the search reaches an amount whose closeness to the row's
/// cannot be judged.
fn find_first(existing: &Vec<Transaction>, raw: &RawTransaction, exact: bool, tolerance: u32) -> (r: Option<
    Option<ExistingMatch>,
>)
    requires
        raw.date.valid(),
        dates_valid(existing@),
    ensures
        r is Some <==> search_comparable(existing@, *raw, exact, tolerance),
        r matches Some(m) ==> first_match(existing@, *raw, exact, tolerance, m),
{
    let raw_day: i64 = raw.date.num_days_from_ce() as i64;
    let mut j: usize = 0;
    while j < existing.len()
        invariant
            0 <= j <= existing@.len(),
            raw_day == day_number(raw.date),
            dates_valid(existing@),
            forall|k: int| 0 <= k < j ==> !is_match(#[trigger] existing@[k], *raw, exact, tolerance),
            !exact ==> forall|k: int| 0 <= k < j ==> comparable(#[trigger] existing@[k].amount, raw.amount),
        decreases existing@.len() - j,
    {
        let t = &existing[j];
        let day: i64 = t.date.num_days_from_ce() as i64;
        let gap: i64 = if day >= raw_day {
            day - raw_day
        } else {
            raw_day - day
        };
        let date_ok = gap <= tolerance as i64;
        let amount_ok = if exact {
            t.amount == raw.amount
        } else {
            if !(t.amount == raw.amount || t.amount.cents == 0 || raw.amount.cents == 0
                || t.amount.currency == raw.amount.currency) {
                proof {
                    assert(!comparable(existing@[j as int].amount, raw.amount));
                }
                return None;
            }
            amounts_close(t.amount, raw.amount)
        };
        if date_ok && amount_ok {
            let m = ExistingMatch {
                transaction_id: t.id,
                date: t.date,
                amount: t.amount,
                description: t.description.clone(),
            };
            proof {
                assert(is_match(existing@[j as int], *raw, exact, tolerance));
                if !exact {
                    assert(comparable(existing@[j as int].amount, raw.amount));
                    assert forall|i: int|
                        0 <= i < existing@.len() && (forall|k: int|
                            0 <= k < i ==> !is_match(#[trigger] existing@[k], *raw, exact, tolerance)) implies comparable(
                        #[trigger] existing@[i].amount,
                        raw.amount,
                    ) by {
                        if i > j {
                            assert(!is_match(existing@[j as int], *raw, exact, tolerance));
                        }
                    }
                }
            }
            return Some(Some(m));
        }
        j = j + 1;
    }
    Some(None)
}

impl<A, T> MatchCandidatesHandler<A, T> {
    /// Creates a new handler with the given dependencies.
    pub fn new(account_repository: Arc<A>, transaction_repository: Arc<T>) -> (r: Self)
        ensures
            r.account_repository == account_repository,
            r.transaction_repository == transaction_repository,
    {
        MatchCandidatesHandler { account_repository, transaction_repository }
    }

    /// The dates to search for matches: from `tolerance_days` days before
    /// the earliest row to as many days after the latest (`covered` is the
    /// period that the rows cover); `None` when either end falls outside
    /// the supported range of dates.
    pub fn search_window(covered: Period, tolerance_days: u32) -> (r: Option<Period>)
        requires
            covered.start.valid(),
            covered.end.valid(),
        ensures
            r is Some <==> (min_day_number() <= day_number(covered.start) - tolerance_days
                && day_number(covered.end) + tolerance_days <= max_day_number()),
            r matches Some(w) ==> w.start.valid() && w.end.valid() && day_number(w.start)
                == day_number(covered.start) - tolerance_days && day_number(w.end) == day_number(
                covered.end,
            ) + tolerance_days,
    {
        proof {
            lemma_day_number_bounds(covered.start);
            lemma_day_number_bounds(covered.end);
        }
        if tolerance_days > 0x7fff_ffff {
            return None;
        }
        let t: i32 = tolerance_days as i32;
        let start = match covered.start.checked_add_days(-t) {
            Some(d) => d,
            None => {
                return None;
            },
        };
        let end = match covered.end.checked_add_days(t) {
            Some(d) => d,
            None => {
                return None;
            },
        };
        Some(Period::new(start, end))
    }

    /// The rows, in order, each with the first existing transaction that
    /// may be it: dated at most `tolerance_days` days before or after the
    /// row, with the same amount when `exact` and an amount within 1%
    /// otherwise; `None` when some row's search reaches an amount whose
    /// closeness to the row's cannot be judged.
    pub fn find_matches(rows: Vec<RawTransaction>, existing: &Vec<Transaction>, exact: bool, tolerance_days: u32) -> (r: Option<Vec<MatchCandidate>>)
        requires
            forall|i: int| 0 <= i < rows@.len() ==> (#[trigger] rows@[i]).date.valid(),
            dates_valid(existing@),
        ensures
            r is Some <==> forall|i: int|
                0 <= i < rows@.len() ==> search_comparable(existing@, #[trigger] rows@[i], exact, tolerance_days),
            r matches Some(v) ==> v@.len() == rows@.len() && forall|i: int|
                0 <= i < rows@.len() ==> (#[trigger] v@[i]).raw == rows@[i] && first_match(
                    existing@,
                    rows@[i],
                    exact,
                    tolerance_days,
                    v@[i].existing,
                ),
            r matches Some(v) ==> forall|i: int|
                0 <= i < v@.len() ==> ((#[trigger] v@[i]).existing matches Some(m) ==> {
                    &&& day_number(rows@[i].date) - tolerance_days <= day_number(m.date)
                        <= day_number(rows@[i].date) + tolerance_days
                    &&& exact ==> m.amount == rows@[i].amount
                    &&& exists|j: int|
                        0 <= j < existing@.len() && (#[trigger] existing@[j]).id == m.transaction_id
                            && existing@[j].date == m.date && existing@[j].amount == m.amount
                            && existing@[j].description == m.description
                }),
            r matches Some(v) ==> forall|i: int|
                0 <= i < v@.len() && (exists|j: int|
                    0 <= j < existing@.len() && (#[trigger] existing@[j]).date == rows@[i].date
                        && existing@[j].amount == rows@[i].amount) ==> (#[trigger] v@[i]).existing is Some,
    {
        let mut out: Vec<MatchCandidate> = Vec::new();
        let n = rows.len();
        let mut i: usize = 0;
        while i < n
            invariant
                n == rows@.len(),
                0 <= i <= n,
                forall|k: int| 0 <= k < rows@.len() ==> (#[trigger] rows@[k]).date.valid(),
                dates_valid(existing@),
                forall|k: int| 0 <= k < i ==> search_comparable(existing@, #[trigger] rows@[k], exact, tolerance_days),
                out@.len() == i,
                forall|k: int|
                    0 <= k < i ==> (#[trigger] out@[k]).raw == rows@[k] && first_match(
                        existing@,
                        rows@[k],
                        exact,
                        tolerance_days,
                        out@[k].existing,
                    ),
            decreases n - i,
        {
            let raw = rows[i].duplicate();
            let m = match find_first(existing, &raw, exact, tolerance_days) {
                Some(m) => m,
                None => {
                    return None;
                },
            };
            out.push(MatchCandidate { raw, existing: m });
            i = i + 1;
        }
        proof {
            assert forall|i: int| 0 <= i < out@.len() implies ((#[trigger] out@[i]).existing matches Some(m) ==> {
                &&& day_number(rows@[i].date) - tolerance_days <= day_number(m.date)
                    <= day_number(rows@[i].date) + tolerance_days
                &&& exact ==> m.amount == rows@[i].amount
                &&& exists|j: int|
                    0 <= j < existing@.len() && (#[trigger] existing@[j]).id == m.transaction_id
                        && existing@[j].date == m.date && existing@[j].amount == m.amount
                        && existing@[j].description == m.description
            }) by {
                if out@[i].existing is Some {
                    let j = choose|j: int|
                        0 <= j < existing@.len() && is_match(#[trigger] existing@[j], rows@[i], exact, tolerance_days)
                            && (forall|k: int|
                            0 <= k < j ==> !is_match(#[trigger] existing@[k], rows@[i], exact, tolerance_days))
                            && out@[i].existing->0 == summary_of(existing@[j]);
                    lemma_match_window(existing@[j], rows@[i], exact, tolerance_days);
                }
            }
            assert forall|i: int|
                0 <= i < out@.len() && (exists|j: int|
                    0 <= j < existing@.len() && (#[trigger] existing@[j]).date == rows@[i].date
                        && existing@[j].amount == rows@[i].amount) implies (#[trigger] out@[i]).existing is Some by {
                let j = choose|j: int|
                    0 <= j < existing@.len() && (#[trigger] existing@[j]).date == rows@[i].date
                        && existing@[j].amount == rows@[i].amount;
                lemma_match_window(existing@[j], rows@[i], exact, tolerance_days);
            }
        }
        Some(out)
    }
}

} // verus!
