//! Command: import the rows of a statement into the ledger.
use crate::importing::domain::events::TransactionsImported;
use crate::importing::domain::raw_transaction::RawTransaction;
use crate::ledger::transaction::{Transaction, TransactionType};
use crate::provider::id::IdGenerator;
use crate::shared::clock::now_millis;
use crate::shared::errors::ImportError;
use crate::shared::ids::{AccountID, Principal, TransactionID};
use crate::shared::money::Money;
use std::sync::Arc;
use vstd::prelude::*;

verus! {

/// Command to confirm and import a batch of raw transactions into the
/// ledger.
#[derive(Debug, Clone)]
pub struct ConfirmCommand {
    pub principal: Principal,
    /// Target account to import into.
    pub account_id: AccountID,
    /// Raw transactions to import.
    pub transactions: Vec<RawTransaction>,
}

/// Handler that imports rows: once the account is checked (see
/// [`check_account`](crate::importing::application::access::check_account)),
/// each row becomes a transaction of the account, and the import is
/// announced with [`TransactionsImported`].
pub struct ConfirmHandler<A, T, P, I> {
    pub account_repository: Arc<A>,
    pub transaction_repository: Arc<T>,
    pub event_publisher: Arc<P>,
    pub id_generator: Arc<I>,
}

/// `t` is the transaction that imports the row `raw` into `account_id`: an
/// income for a positive amount and an expense otherwise, of the amount's
/// magnitude, with the row's description and date, uncategorised.
pub open spec fn imports_row(t: Transaction, raw: RawTransaction, account_id: AccountID) -> bool {
    &&& t.account_id == account_id
    &&& t.tx_type == if raw.amount.cents > 0 {
        TransactionType::Income
    } else {
        TransactionType::Expense
    }
    &&& t.amount == (Money {
        cents: if raw.amount.cents < 0 {
            -raw.amount.cents
        } else {
            raw.amount.cents as int
        } as i64,
        currency: raw.amount.currency,
    })
    &&& t.description == raw.description
    &&& t.date == raw.date
    &&& t.category_id is None
}

/// The transaction that imports a row keeps the row's description and
/// date, goes to the target account uncategorised, carries the row's
/// magnitude in the row's currency, and is an income exactly for a positive
/// row.
pub proof fn lemma_import_keeps_row(t: Transaction, raw: RawTransaction, account_id: AccountID)
    requires
        imports_row(t, raw, account_id),
        raw.amount.cents > i64::MIN,
    ensures
        t.description == raw.description,
        t.date == raw.date,
        t.account_id == account_id,
        t.category_id is None,
        t.amount.currency == raw.amount.currency,
        t.amount.cents == raw.amount.cents || t.amount.cents == -raw.amount.cents,
        t.amount.cents >= 0,
        raw.amount.cents > 0 <==> t.tx_type == TransactionType::Income,
{
}

impl<A, T, P, I> ConfirmHandler<A, T, P, I> {
    /// Creates a new handler with the given dependencies.
    pub fn new(
        account_repository: Arc<A>,
        transaction_repository: Arc<T>,
        event_publisher: Arc<P>,
        id_generator: Arc<I>,
    ) -> (r: Self)
        ensures
            r.account_repository == account_repository,
            r.transaction_repository == transaction_repository,
            r.event_publisher == event_publisher,
            r.id_generator == id_generator,
    {
        ConfirmHandler { account_repository, transaction_repository, event_publisher, id_generator }
    }

    /// The event that announces the import of `count` transactions into
    /// `account_id`; none for an empty batch, which is not announced.
    pub fn imported(account_id: AccountID, count: usize) -> (r: Option<TransactionsImported>)
        ensures
            r is Some <==> count > 0,
            r matches Some(e) ==> e.account_id == account_id && e.count == count,
    {
        if count == 0 {
            return None;
        }
        Some(TransactionsImported { account_id, count, timestamp: now_millis() })
    }
}

impl<A, T, P, I: IdGenerator> ConfirmHandler<A, T, P, I> {
    /// The transaction that imports `raw` into `account_id`, under a fresh
    /// identifier.
    ///
    /// A row of amount zero cannot be imported and answers
    /// [`ImportError::InvariantViolation`].
    pub fn transaction_for(&self, raw: &RawTransaction, account_id: AccountID) -> (r: Result<Transaction, ImportError>)
        requires
            raw.amount.cents > i64::MIN,
        ensures
            r is Ok <==> raw.amount.cents != 0,
            r matches Ok(t) ==> imports_row(t, *raw, account_id) && self.id_generator.issues(t.id.0),
            r matches Ok(t) ==> t.description == raw.description && t.date == raw.date
                && t.account_id == account_id && t.amount.currency == raw.amount.currency
                && (t.amount.cents == raw.amount.cents || t.amount.cents == -raw.amount.cents)
                && t.amount.cents > 0 && t.category_id is None && (raw.amount.cents > 0 <==> t.tx_type
                == TransactionType::Income),
            r matches Err(e) ==> e is InvariantViolation,
    {
        let id = TransactionID(self.id_generator.new_id());
        let tx_type = if raw.amount.is_positive() {
            TransactionType::Income
        } else {
            TransactionType::Expense
        };
        let amount = raw.amount.abs();
        match Transaction::new(id, account_id, tx_type, amount, raw.description.clone(), raw.date) {
            Ok(mut t) => {
                t.created_at = now_millis();
                Ok(t)
            },
            Err(e) => Err(ImportError::InvariantViolation(e.message())),
        }
    }

    /// The transactions that import the rows into `account_id`, in order,
    /// and the error that stopped them: the rows are imported up to the
    /// first one of amount zero, which answers
    /// [`ImportError::InvariantViolation`].
    pub fn transactions_for(&self, rows: &Vec<RawTransaction>, account_id: AccountID) -> (r: (Vec<Transaction>, Option<ImportError>))
        requires
            forall|i: int| 0 <= i < rows@.len() ==> (#[trigger] rows@[i]).amount.cents > i64::MIN,
        ensures
            r.0@.len() <= rows@.len(),
            forall|i: int| 0 <= i < r.0@.len() ==> imports_row(#[trigger] r.0@[i], rows@[i], account_id),
            forall|i: int| 0 <= i < r.0@.len() ==> (#[trigger] rows@[i]).amount.cents != 0,
            r.1 is None <==> r.0@.len() == rows@.len(),
            r.1 matches Some(e) ==> rows@[r.0@.len() as int].amount.cents == 0 && e is InvariantViolation,
            forall|i: int| 0 <= i < r.0@.len() ==> self.id_generator.issues(#[trigger] r.0@[i].id.0),
            forall|i: int|
                0 <= i < r.0@.len() ==> (#[trigger] r.0@[i]).description == rows@[i].description
                    && r.0@[i].date == rows@[i].date && r.0@[i].account_id == account_id,
    {
        let mut out: Vec<Transaction> = Vec::new();
        let n = rows.len();
        let mut i: usize = 0;
        while i < n
            invariant
                n == rows@.len(),
                0 <= i <= n,
                forall|k: int| 0 <= k < rows@.len() ==> (#[trigger] rows@[k]).amount.cents > i64::MIN,
                out@.len() == i,
                forall|k: int| 0 <= k < i ==> imports_row(#[trigger] out@[k], rows@[k], account_id),
                forall|k: int| 0 <= k < i ==> (#[trigger] rows@[k]).amount.cents != 0,
                forall|k: int| 0 <= k < i ==> self.id_generator.issues(#[trigger] out@[k].id.0),
            decreases n - i,
        {
            match self.transaction_for(&rows[i], account_id) {
                Ok(t) => {
                    out.push(t);
                },
                Err(e) => {
                    return (out, Some(e));
                },
            }
            i = i + 1;
        }
        (out, None)
    }
}

} // verus!
