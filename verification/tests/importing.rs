use std::sync::Arc;
use zxc_money::importing::application::access::{check_account, covered_period};
use zxc_money::importing::application::confirm::ConfirmHandler;
use zxc_money::importing::application::match_candidates::{amounts_close, MatchCandidatesHandler};
use zxc_money::importing::application::preview::PreviewHandler;
use zxc_money::importing::domain::events::TransactionsImported;
use zxc_money::importing::domain::raw_transaction::RawTransaction;
use zxc_money::importing::facade::ImportingFacade;
use zxc_money::ledger::account::{Account, AccountType};
use zxc_money::ledger::transaction::{Transaction, TransactionType};
use zxc_money::provider::id::MockIdGenerator;
use zxc_money::shared::date::{Date, Period};
use zxc_money::shared::errors::ImportError;
use zxc_money::shared::ids::{AccountID, Principal, TransactionID, UserID};
use zxc_money::shared::money::{Currency, Money};

fn date(y: i32, m: u32, d: u32) -> Date {
    Date::from_ymd_opt(y, m, d).unwrap()
}

fn sample_raw() -> RawTransaction {
    RawTransaction {
        date: date(2026, 3, 15),
        amount: Money::new(-2500, Currency::BRL),
        description: "Supermarket".into(),
        raw_line: "15/03/2026,-25.00,Supermarket".into(),
    }
}

fn raw(d: Date, cents: i64) -> RawTransaction {
    RawTransaction { date: d, amount: Money::from_cents(cents, Currency::BRL), description: "test".into(), raw_line: format!("{cents},test") }
}

#[test]
fn test_raw_transaction_creation() {
    let raw = sample_raw();
    assert_eq!(raw.date, date(2026, 3, 15));
    assert_eq!(raw.amount, Money::new(-2500, Currency::BRL));
    assert_eq!(raw.description, "Supermarket");
}

#[test]
fn test_raw_transaction_clone() {
    let raw = sample_raw();
    let cloned = raw.clone();
    assert_eq!(raw, cloned);
    assert_eq!(raw.duplicate(), raw);
}

#[test]
fn test_raw_transaction_positive_amount() {
    let raw = RawTransaction {
        date: date(2026, 1, 1),
        amount: Money::new(50000, Currency::BRL),
        description: "Salary".into(),
        raw_line: "01/01/2026,500.00,Salary".into(),
    };
    assert!(raw.amount.is_positive());
}

#[test]
fn test_event_type() {
    let event = TransactionsImported { account_id: AccountID::new(), count: 5, timestamp: chrono::Utc::now().timestamp_millis() };
    assert_eq!(event.event_type(), "TransactionsImported");
}

#[test]
fn test_amounts_close_exact() {
    assert!(amounts_close(Money::from_cents(1000, Currency::BRL), Money::from_cents(1000, Currency::BRL)));
}

#[test]
fn test_amounts_close_within_tolerance() {
    assert!(amounts_close(Money::from_cents(1000, Currency::BRL), Money::from_cents(1005, Currency::BRL)));
}

#[test]
fn test_amounts_not_close() {
    assert!(!amounts_close(Money::from_cents(1000, Currency::BRL), Money::from_cents(1100, Currency::BRL)));
}

#[test]
fn amounts_close_edges() {
    let m = |c| Money::from_cents(c, Currency::BRL);
    assert!(!amounts_close(m(0), m(1)));
    assert!(amounts_close(m(0), m(0)));
    assert!(amounts_close(m(-1000), m(-1009)));
    assert!(amounts_close(m(1000), m(1010)));
    assert!(!amounts_close(m(1000), m(1011)));
    assert!(!amounts_close(m(1000), m(-1000)));
    assert!(!amounts_close(m(i64::MAX), m(i64::MIN)));
    assert_eq!(amounts_close(m(1005), m(1000)), amounts_close(m(1000), m(1005)));
}

fn owned_account(owner: UserID) -> Account {
    Account::new(AccountID(7), owner, "Test".into(), AccountType::Checking, Currency::BRL, Money::from_cents(0, Currency::BRL)).unwrap()
}

#[test]
fn test_preview_wrong_owner_blocked() {
    let r = check_account(Some(owned_account(UserID(1))), AccountID(7), Principal::new(UserID(2)));
    match r {
        Err(ImportError::Forbidden(m)) => assert_eq!(m, "not the owner of this account"),
        _ => panic!("another user's account is refused"),
    }
    match check_account(None, AccountID(7), Principal::new(UserID(2))) {
        Err(ImportError::NotFound(m)) => assert_eq!(m, "account not found: 00000000-0000-0000-0000-000000000007"),
        _ => panic!("an unknown account is refused"),
    }
    assert!(check_account(Some(owned_account(UserID(1))), AccountID(7), Principal::new(UserID(1))).is_ok());
}

#[test]
fn test_preview_empty() {
    assert!(covered_period(&vec![]).is_none());
    assert!(PreviewHandler::<(), ()>::flag_duplicates(vec![], &vec![]).is_empty());
}

fn existing(id: u128, d: Date, cents: i64) -> Transaction {
    Transaction::new(TransactionID(id), AccountID(7), TransactionType::Expense, Money::from_cents(cents, Currency::BRL), "old".into(), d).unwrap()
}

#[test]
fn test_preview_no_duplicates() {
    let rows = vec![raw(date(2026, 3, 3), 1000), raw(date(2026, 3, 1), 500), raw(date(2026, 3, 9), 700)];
    assert_eq!(covered_period(&rows), Some(Period::new(date(2026, 3, 1), date(2026, 3, 9))));
    let flagged = PreviewHandler::<(), ()>::flag_duplicates(rows, &vec![existing(1, date(2026, 3, 1), 500), existing(2, date(2026, 3, 4), 1000)]);
    assert_eq!(flagged.iter().map(|c| c.is_duplicate).collect::<Vec<_>>(), vec![false, true, false]);
    assert_eq!(flagged[0].raw.amount.cents, 1000);
}

#[test]
fn test_match_candidates_empty() {
    assert!(MatchCandidatesHandler::<(), ()>::find_matches(vec![], &vec![existing(1, date(2026, 3, 1), 500)], true, 3).unwrap().is_empty());
}

#[test]
fn match_candidates_finds_first_match() {
    let ledger = vec![existing(1, date(2026, 3, 2), 1000), existing(2, date(2026, 3, 1), 1005), existing(3, date(2026, 3, 1), 1000)];
    let rows = vec![raw(date(2026, 3, 1), 1000), raw(date(2026, 3, 5), 1000)];
    let fuzzy = MatchCandidatesHandler::<(), ()>::find_matches(rows.clone(), &ledger, false, 0).unwrap();
    assert_eq!(fuzzy[0].existing.as_ref().map(|m| m.transaction_id), Some(TransactionID(2)));
    assert!(fuzzy[1].existing.is_none());
    let exact = MatchCandidatesHandler::<(), ()>::find_matches(rows.clone(), &ledger, true, 0).unwrap();
    let m = exact[0].existing.clone().unwrap();
    assert_eq!(m.transaction_id, TransactionID(3));
    assert_eq!(m.description, "old");
    let window = MatchCandidatesHandler::<(), ()>::search_window(Period::new(date(2026, 3, 1), date(2026, 3, 30)), 3);
    assert_eq!(window, Some(Period::new(date(2026, 2, 26), date(2026, 4, 2))));
    let usd = vec![Transaction::new(TransactionID(9), AccountID(7), TransactionType::Expense, Money::from_cents(1000, Currency::USD), "usd".into(), date(2026, 3, 1)).unwrap()];
    assert!(MatchCandidatesHandler::<(), ()>::find_matches(rows.clone(), &usd, false, 0).is_none());
    assert!(MatchCandidatesHandler::<(), ()>::find_matches(rows, &usd, true, 0).is_some());
    assert!(MatchCandidatesHandler::<(), ()>::search_window(Period::new(date(-262143, 1, 2), date(2026, 3, 30)), 3).is_none());
}

#[test]
fn match_candidates_within_date_tolerance() {
    let ledger = vec![existing(1, date(2026, 3, 17), 1000)];
    let rows = vec![raw(date(2026, 3, 15), 1000)];
    let within = MatchCandidatesHandler::<(), ()>::find_matches(rows.clone(), &ledger, true, 3).unwrap();
    assert_eq!(within.len(), 1);
    assert_eq!(within[0].existing.as_ref().map(|m| m.transaction_id), Some(TransactionID(1)));
    let too_far = MatchCandidatesHandler::<(), ()>::find_matches(rows.clone(), &ledger, true, 1).unwrap();
    assert!(too_far[0].existing.is_none());
    let earlier = vec![existing(2, date(2026, 3, 12), 1000)];
    let before = MatchCandidatesHandler::<(), ()>::find_matches(rows, &earlier, true, 3).unwrap();
    assert_eq!(before[0].existing.as_ref().map(|m| m.transaction_id), Some(TransactionID(2)));
}

#[test]
fn test_confirm_negative_becomes_expense() {
    let h: ConfirmHandler<(), (), (), MockIdGenerator> = ConfirmHandler::new(Arc::new(()), Arc::new(()), Arc::new(()), Arc::new(MockIdGenerator::new(4)));
    let (txs, err) = h.transactions_for(&vec![raw(date(2026, 3, 1), -2500), raw(date(2026, 3, 2), 50000)], AccountID(7));
    assert!(err.is_none());
    assert_eq!(txs[0].tx_type, TransactionType::Expense);
    assert_eq!(txs[0].amount, Money::from_cents(2500, Currency::BRL));
    assert_eq!(txs[1].tx_type, TransactionType::Income);
    assert_eq!(txs[1].amount, Money::from_cents(50000, Currency::BRL));
    assert_eq!(txs[1].date, date(2026, 3, 2));
    assert_eq!(txs[0].id, TransactionID(4));
    let ev = ConfirmHandler::<(), (), (), MockIdGenerator>::imported(AccountID(7), txs.len()).unwrap();
    assert_eq!(ev.count, 2);
}

#[test]
fn confirm_empty_batch_is_not_announced() {
    let h: ConfirmHandler<(), (), (), MockIdGenerator> = ConfirmHandler::new(Arc::new(()), Arc::new(()), Arc::new(()), Arc::new(MockIdGenerator::new(4)));
    let (txs, err) = h.transactions_for(&vec![], AccountID(7));
    assert!(txs.is_empty() && err.is_none());
    assert!(ConfirmHandler::<(), (), (), MockIdGenerator>::imported(AccountID(7), txs.len()).is_none());
}

#[test]
fn confirm_stops_at_zero_amount() {
    let h: ConfirmHandler<(), (), (), MockIdGenerator> = ConfirmHandler::new(Arc::new(()), Arc::new(()), Arc::new(()), Arc::new(MockIdGenerator::new(4)));
    let (txs, err) = h.transactions_for(&vec![raw(date(2026, 3, 1), 10), raw(date(2026, 3, 2), 0), raw(date(2026, 3, 3), 10)], AccountID(7));
    assert_eq!(txs.len(), 1);
    match err {
        Some(ImportError::InvariantViolation(m)) => assert_eq!(m, "invariant violation: transaction amount must be positive"),
        _ => panic!("a zero amount cannot be imported"),
    }
}

#[test]
fn importing_facade_shares_ports() {
    let accounts = Arc::new(());
    let f: ImportingFacade<(), (), (), MockIdGenerator> = ImportingFacade::new(accounts, Arc::new(()), Arc::new(()), Arc::new(MockIdGenerator::new(1)));
    assert!(Arc::ptr_eq(&f.preview.account_repository, &f.confirm.account_repository));
}
