//! Query: flag the rows of a statement that are already in the ledger.
use crate::importing::domain::raw_transaction::RawTransaction;
use crate::ledger::transaction::Transaction;
use crate::shared::ids::{AccountID, Principal};
use std::sync::Arc;
use vstd::prelude::*;

verus! {

/// Command to preview a batch of raw transactions before import.
#[derive(Debug, Clone)]
pub struct PreviewCommand {
    pub principal: Principal,
    /// Target account to import into.
    pub account_id: AccountID,
    /// Parsed raw transactions to preview.
    pub transactions: Vec<RawTransaction>,
}

/// A raw transaction with duplicate-detection metadata.
#[derive(Debug, Clone)]
pub struct PreviewCandidate {
    /// The original raw transaction.
    pub raw: RawTransaction,
    /// An existing transaction of the account has the same date and amount.
    pub is_duplicate: bool,
}

/// Handler that previews a batch of rows: once the account is checked (see
/// [`check_account`](crate::importing::application::access::check_account)),
/// the account's transactions over the period the rows cover (see
/// [`covered_period`](crate::importing::application::access::covered_period))
/// are compared with the rows.
pub struct PreviewHandler<A, T> {
    pub account_repository: Arc<A>,
    pub transaction_repository: Arc<T>,
}

/// `t` has the date and the amount of `raw`.
pub open spec fn duplicates(t: Transaction, raw: RawTransaction) -> bool {
    t.date == raw.date && t.amount == raw.amount
}

/// Some transaction of `existing` has the date and the amount of `raw`.
pub open spec fn has_duplicate(existing: Seq<Transaction>, raw: RawTransaction) -> bool {
    exists|j: int| 0 <= j < existing.len() && duplicates(#[trigger] existing[j], raw)
}

/// A row is a duplicate exactly when some existing transaction has both
/// its date and its amount: a transaction of the same date but another
/// amount, or of the same amount on another date, does not make it one.
pub proof fn lemma_duplicate_same_date_and_amount(existing: Seq<Transaction>, raw: RawTransaction)
    ensures
        has_duplicate(existing, raw) <==> exists|j: int|
            0 <= j < existing.len() && (#[trigger] existing[j]).date == raw.date && existing[j].amount
                == raw.amount,
{
    if has_duplicate(existing, raw) {
        let j = choose|j: int| 0 <= j < existing.len() && duplicates(#[trigger] existing[j], raw);
        assert(existing[j].date == raw.date && existing[j].amount == raw.amount);
    }
    if exists|j: int|
        0 <= j < existing.len() && (#[trigger] existing[j]).date == raw.date && existing[j].amount
            == raw.amount {
        let j = choose|j: int|
            0 <= j < existing.len() && (#[trigger] existing[j]).date == raw.date && existing[j].amount
                == raw.amount;
        assert(duplicates(existing[j], raw));
    }
}

impl<A, T> PreviewHandler<A, T> {
    /// Creates a new handler with the given dependencies.
    pub fn new(account_repository: Arc<A>, transaction_repository: Arc<T>) -> (r: Self)
        ensures
            r.account_repository == account_repository,
            r.transaction_repository == transaction_repository,
    {
        PreviewHandler { account_repository, transaction_repository }
    }

    /// The rows, in order, each flagged when some existing transaction has
    /// its date and amount.
    pub fn flag_duplicates(rows: Vec<RawTransaction>, existing: &Vec<Transaction>) -> (r: Vec<PreviewCandidate>)
        ensures
            r@.len() == rows@.len(),
            forall|i: int|
                0 <= i < rows@.len() ==> (#[trigger] r@[i]).raw == rows@[i] && (r@[i].is_duplicate
                    <==> has_duplicate(existing@, rows@[i])),
            forall|i: int|
                0 <= i < rows@.len() ==> ((#[trigger] r@[i]).is_duplicate <==> exists|j: int|
                    0 <= j < existing@.len() && existing@[j].date == rows@[i].date
                        && existing@[j].amount == rows@[i].amount),
    {
        let mut out: Vec<PreviewCandidate> = Vec::new();
        let n = rows.len();
        let mut i: usize = 0;
        while i < n
            invariant
                n == rows@.len(),
                0 <= i <= n,
                out@.len() == i,
                forall|k: int|
                    0 <= k < i ==> (#[trigger] out@[k]).raw == rows@[k] && (out@[k].is_duplicate
                        <==> has_duplicate(existing@, rows@[k])),
                forall|k: int|
                    0 <= k < i ==> ((#[trigger] out@[k]).is_duplicate <==> exists|j: int|
                        0 <= j < existing@.len() && existing@[j].date == rows@[k].date
                            && existing@[j].amount == rows@[k].amount),
            decreases n - i,
        {
            let raw = rows[i].duplicate();
            let mut found = false;
            let mut j: usize = 0;
            while j < existing.len()
                invariant
                    0 <= j <= existing@.len(),
                    found <==> exists|m: int| 0 <= m < j && duplicates(#[trigger] existing@[m], raw),
                decreases existing@.len() - j,
            {
                if existing[j].date == raw.date && existing[j].amount == raw.amount {
                    found = true;
                }
                j = j + 1;
            }
            proof {
                lemma_duplicate_same_date_and_amount(existing@, raw);
            }
            out.push(PreviewCandidate { raw, is_duplicate: found });
            i = i + 1;
        }
        out
    }
}

} // verus!
