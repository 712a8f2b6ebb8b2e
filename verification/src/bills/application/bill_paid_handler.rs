//! Ledger integration: a paid bill becomes an expense transaction.
use crate::bills::domain::events::BillPaid;
use crate::ledger::account::Account;
use crate::ledger::transaction::{Transaction, TransactionType};
use crate::shared::date::Date;
use crate::shared::errors::{BillsError, LedgerError};
use crate::shared::ids::TransactionID;
use crate::shared::money::currency_code;
use crate::shared::text::{push_uuid, uuid_text};
use crate::provider::id::IdGenerator;
use std::sync::Arc;
use vstd::prelude::*;

verus! {

/// Cross-context handler that reacts to [`BillPaid`] events by recording
/// the payment as an expense [`Transaction`] in the ledger.
pub struct BillPaidHandler<A, T, I> {
    pub account_repository: Arc<A>,
    pub transaction_repository: Arc<T>,
    pub id_generator: Arc<I>,
}

/// Description of the expense that pays the bill with identifier `bill`.
pub open spec fn bill_payment_description(bill: u128) -> Seq<char> {
    "Bill payment - "@ + uuid_text(bill)
}

/// Error message for a payment from an account that does not exist.
pub open spec fn account_not_found_message(account: u128) -> Seq<char> {
    "account "@ + uuid_text(account) + " not found for bill payment"@
}

impl<A, T, I> BillPaidHandler<A, T, I> {
    /// Creates a new handler with the given dependencies.
    pub fn new(account_repository: Arc<A>, transaction_repository: Arc<T>, id_generator: Arc<I>) -> (r: Self)
        ensures
            r.account_repository == account_repository,
            r.transaction_repository == transaction_repository,
            r.id_generator == id_generator,
    {
        BillPaidHandler { account_repository, transaction_repository, id_generator }
    }

}

impl<A, T, I: IdGenerator> BillPaidHandler<A, T, I> {
    /// The expense transaction that records the payment `event`, given the
    /// paying account as found in the ledger (`account`) and today's date,
    /// under a fresh identifier drawn once the checks have passed.
    ///
    /// The payment must carry an amount, the account must exist and be in
    /// the amount's currency, and the amount must be positive; each failed
    /// check has its own error, checked in that order.
    pub fn expense_for(&self, event: &BillPaid, account: Option<Account>, today: Date) -> (r: Result<Transaction, BillsError>)
        ensures
            event.amount is None ==> (r matches Err(BillsError::InvariantViolation(m)) && m@
                == "cannot create transaction for bill with no amount"@),
            event.amount is Some && account is None ==> (r matches Err(
                BillsError::InvariantViolation(m),
            ) && m@ == account_not_found_message(event.account_id.0)),
            event.amount matches Some(a) ==> (account matches Some(acc) ==> (a.currency
                != acc.currency ==> (r matches Err(BillsError::InvariantViolation(m)) && m@
                == "currency mismatch: bill amount is "@ + currency_code(a.currency)
                + " but account is "@ + currency_code(acc.currency)))),
            event.amount matches Some(a) ==> (account matches Some(acc) ==> (a.currency
                == acc.currency && a.cents <= 0 ==> r matches Err(
                BillsError::Ledger(LedgerError::InvariantViolation(_)),
            ))),
            r is Ok <==> (event.amount matches Some(a) && account matches Some(acc) && a.currency
                == acc.currency && a.cents > 0),
            r matches Ok(tx) ==> {
                &&& tx.account_id == event.account_id
                &&& tx.tx_type == TransactionType::Expense
                &&& Some(tx.amount) == event.amount
                &&& tx.description@ == bill_payment_description(event.bill_id.0)
                &&& tx.date == today
                &&& tx.category_id == Some(event.category_id)
                &&& self.id_generator.issues(tx.id.0)
            },
    {
        let amount = match event.amount {
            Some(a) => a,
            None => {
                return Err(
                    BillsError::InvariantViolation(
                        String::from_str("cannot create transaction for bill with no amount"),
                    ),
                );
            },
        };
        let account = match account {
            Some(a) => a,
            None => {
                let mut m = String::from_str("account ");
                push_uuid(&mut m, event.account_id.0);
                m.append(" not found for bill payment");
                return Err(BillsError::InvariantViolation(m));
            },
        };
        if amount.currency != account.currency() {
            let mut m = String::from_str("currency mismatch: bill amount is ");
            m.append(amount.currency.code());
            m.append(" but account is ");
            m.append(account.currency().code());
            return Err(BillsError::InvariantViolation(m));
        }
        let tx_id = TransactionID(self.id_generator.new_id());
        let mut description = String::from_str("Bill payment - ");
        push_uuid(&mut description, event.bill_id.0);
        let tx = match Transaction::new(
            tx_id,
            event.account_id,
            TransactionType::Expense,
            amount,
            description,
            today,
        ) {
            Ok(t) => t,
            Err(e) => {
                return Err(BillsError::Ledger(e));
            },
        };
        let tx = tx.with_category(event.category_id);
        match tx.validate() {
            Ok(()) => {},
            Err(e) => {
                return Err(BillsError::Ledger(e));
            },
        }
        Ok(tx)
    }
}

} // verus!
