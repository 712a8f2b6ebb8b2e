use std::sync::Arc;
use zxc_money::bills::application::bill_paid_handler::BillPaidHandler;
use zxc_money::bills::application::mark_bill_paid::{MarkBillPaidCommand, MarkBillPaidHandler};
use zxc_money::bills::application::schedule_bill::{ScheduleBillCommand, ScheduleBillHandler};
use zxc_money::bills::domain::bill::{Bill, BillStatus, RecurrenceRule};
use zxc_money::bills::domain::events::{BillDueSoon, BillOverdue, BillPaid, BillScheduled};
use zxc_money::ledger::account::{Account, AccountType};
use zxc_money::ledger::transaction::TransactionType;
use zxc_money::provider::id::MockIdGenerator;
use zxc_money::shared::date::Date;
use zxc_money::shared::errors::{BillsError, LedgerError};
use zxc_money::shared::ids::{AccountID, BillID, CategoryID, Principal, UserID};
use zxc_money::shared::money::{Currency, Money};
use zxc_money::shared::text::uuid_string;

fn date(y: i32, m: u32, d: u32) -> Date {
    Date::from_ymd_opt(y, m, d).unwrap()
}

fn bill(due: Date, recurrence: Option<RecurrenceRule>) -> Bill {
    Bill::new(
        BillID::new(),
        UserID::new(),
        "Internet".into(),
        Some(Money::from_cents(99_90, Currency::BRL)),
        due,
        recurrence,
        CategoryID::new(),
    )
}

fn mark_handler(next_id: u128) -> MarkBillPaidHandler<(), (), MockIdGenerator> {
    MarkBillPaidHandler::new(Arc::new(()), Arc::new(()), Arc::new(MockIdGenerator::new(next_id)))
}

#[test]
fn bill_starts_pending() {
    let b = bill(date(2026, 2, 10), None);
    assert_eq!(b.status, BillStatus::Pending);
    assert_eq!(b.name, "Internet");
}

#[test]
fn bill_paid_once_only() {
    let mut b = bill(date(2026, 2, 10), None);
    assert!(b.mark_paid().is_ok());
    assert_eq!(b.status, BillStatus::Paid);
    match b.mark_paid() {
        Err(BillsError::InvariantViolation(m)) => assert_eq!(m, "only pending bills can be marked as paid"),
        _ => panic!("a paid bill cannot be paid again"),
    }
    assert!(b.mark_overdue().is_err());
    assert_eq!(b.status, BillStatus::Paid);
}

#[test]
fn bill_overdue_only_from_pending() {
    let mut b = bill(date(2026, 2, 10), None);
    assert!(b.mark_overdue().is_ok());
    assert_eq!(b.status, BillStatus::Overdue);
    match b.mark_overdue() {
        Err(BillsError::InvariantViolation(m)) => assert_eq!(m, "only pending bills can be marked as overdue"),
        _ => panic!("an overdue bill cannot become overdue again"),
    }
    assert!(b.mark_paid().is_err());
}

#[test]
fn next_due_date_monthly() {
    assert_eq!(bill(date(2026, 2, 10), Some(RecurrenceRule::Monthly)).next_due_date(), Some(date(2026, 3, 10)));
    assert_eq!(bill(date(2026, 12, 15), Some(RecurrenceRule::Monthly)).next_due_date(), Some(date(2027, 1, 15)));
    assert_eq!(bill(date(2026, 1, 31), Some(RecurrenceRule::Monthly)).next_due_date(), Some(date(2026, 2, 28)));
    assert_eq!(bill(date(2024, 1, 30), Some(RecurrenceRule::Monthly)).next_due_date(), Some(date(2024, 2, 29)));
    assert_eq!(bill(date(2026, 3, 31), Some(RecurrenceRule::Monthly)).next_due_date(), Some(date(2026, 4, 30)));
}

#[test]
fn next_due_date_weekly_and_yearly() {
    assert_eq!(bill(date(2026, 1, 28), Some(RecurrenceRule::Weekly)).next_due_date(), Some(date(2026, 2, 4)));
    assert_eq!(bill(date(2026, 12, 29), Some(RecurrenceRule::Weekly)).next_due_date(), Some(date(2027, 1, 5)));
    assert_eq!(bill(date(2025, 3, 1), Some(RecurrenceRule::Yearly)).next_due_date(), Some(date(2026, 3, 1)));
    assert_eq!(bill(date(2024, 2, 29), Some(RecurrenceRule::Yearly)).next_due_date(), Some(date(2025, 2, 28)));
    assert_eq!(bill(date(2024, 2, 29), None).next_due_date(), None);
}

#[test]
fn test_schedule_bill() {
    let handler = ScheduleBillHandler::new(Arc::new(()), Arc::new(()), Arc::new(MockIdGenerator::new(7)));
    let owner = UserID::new();
    let (b, ev) = handler.schedule(ScheduleBillCommand {
        principal: Principal::new(owner),
        name: "Internet".into(),
        amount: Some(Money::from_cents(99_90, Currency::BRL)),
        due_date: date(2026, 3, 10),
        recurrence: Some(RecurrenceRule::Monthly),
        category_id: CategoryID(3),
    });
    assert_eq!(b.id, BillID(7));
    assert_eq!(b.owner_id, owner);
    assert_eq!(b.status, BillStatus::Pending);
    assert_eq!(ev.bill_id, BillID(7));
    assert_eq!(ev.name, "Internet");
    assert_eq!(ev.due_date, date(2026, 3, 10));
    assert_eq!(ev.event_type(), "BillScheduled");
}

#[test]
fn test_mark_bill_paid_one_time() {
    let b = bill(date(2026, 2, 10), None);
    let cmd = MarkBillPaidCommand { bill_id: b.id, account_id: AccountID(9) };
    let (paid, ev) = MarkBillPaidHandler::<(), (), MockIdGenerator>::pay(Some(b.clone()), cmd).unwrap();
    assert_eq!(paid.status, BillStatus::Paid);
    assert_eq!(ev.bill_id, b.id);
    assert_eq!(ev.account_id, AccountID(9));
    assert_eq!(ev.category_id, b.category_id);
    assert_eq!(ev.amount, b.amount);
    assert!(mark_handler(1).next_occurrence(&paid).is_none());
}

#[test]
fn test_mark_bill_paid_recurring_creates_next() {
    let b = bill(date(2026, 2, 10), Some(RecurrenceRule::Monthly));
    let cmd = MarkBillPaidCommand { bill_id: b.id, account_id: AccountID::new() };
    let (paid, _) = MarkBillPaidHandler::<(), (), MockIdGenerator>::pay(Some(b), cmd).unwrap();
    let (next, ev) = mark_handler(42).next_occurrence(&paid).unwrap();
    assert_eq!(next.id, BillID(42));
    assert_eq!(next.due_date, date(2026, 3, 10));
    assert_eq!(next.status, BillStatus::Pending);
    assert_eq!(ev.bill_id, BillID(42));
    assert_eq!(ev.due_date, date(2026, 3, 10));
}

#[test]
fn recurring_bill_due_on_the_31st_gets_a_next_occurrence() {
    let b = bill(date(2026, 1, 31), Some(RecurrenceRule::Monthly));
    let cmd = MarkBillPaidCommand { bill_id: b.id, account_id: AccountID::new() };
    let (paid, _) = MarkBillPaidHandler::<(), (), MockIdGenerator>::pay(Some(b), cmd).unwrap();
    let (next, _) = mark_handler(43).next_occurrence(&paid).unwrap();
    assert_eq!(next.id, BillID(43));
    assert_eq!(next.due_date, date(2026, 2, 28));
}

#[test]
fn test_mark_bill_paid_not_found() {
    let id = BillID::new();
    let r = MarkBillPaidHandler::<(), (), MockIdGenerator>::pay(None, MarkBillPaidCommand { bill_id: id, account_id: AccountID::new() });
    assert!(matches!(r, Err(BillsError::BillNotFound(x)) if x == id));
}

#[test]
fn test_mark_bill_paid_already_paid() {
    let b = bill(date(2026, 2, 10), None);
    let cmd = MarkBillPaidCommand { bill_id: b.id, account_id: AccountID::new() };
    let (paid, _) = MarkBillPaidHandler::<(), (), MockIdGenerator>::pay(Some(b), cmd).unwrap();
    let again = MarkBillPaidHandler::<(), (), MockIdGenerator>::pay(Some(paid), cmd);
    assert!(matches!(again, Err(BillsError::InvariantViolation(_))));
}

#[test]
fn test_mark_bill_paid_recurring_preserves_fields() {
    let owner = UserID::new();
    let b = Bill::new(
        BillID::new(),
        owner,
        "Gym".into(),
        Some(Money::from_cents(15000, Currency::BRL)),
        date(2026, 5, 1),
        Some(RecurrenceRule::Monthly),
        CategoryID::new(),
    );
    let cmd = MarkBillPaidCommand { bill_id: b.id, account_id: AccountID::new() };
    let (paid, _) = MarkBillPaidHandler::<(), (), MockIdGenerator>::pay(Some(b), cmd).unwrap();
    let (next, _) = mark_handler(5).next_occurrence(&paid).unwrap();
    assert_eq!(next.name, "Gym");
    assert_eq!(next.owner_id, owner);
    assert_eq!(next.amount, Some(Money::from_cents(15000, Currency::BRL)));
    assert_eq!(next.recurrence, Some(RecurrenceRule::Monthly));
    assert_eq!(next.due_date, date(2026, 6, 1));
}

fn account(currency: Currency) -> Account {
    Account::new(AccountID(11), UserID::new(), "Checking".into(), AccountType::Checking, currency, Money::zero(currency)).unwrap()
}

fn paid_event(amount: Option<Money>) -> BillPaid {
    BillPaid {
        bill_id: BillID(0x0123_4567_89ab_cdef_0011_2233_4455_6677),
        amount,
        account_id: AccountID(11),
        category_id: CategoryID(77),
        timestamp: 0,
    }
}

fn paid_handler() -> BillPaidHandler<(), (), MockIdGenerator> {
    BillPaidHandler::new(Arc::new(()), Arc::new(()), Arc::new(MockIdGenerator::new(99)))
}

#[test]
fn test_bill_paid_creates_expense() {
    let ev = paid_event(Some(Money::new(150_00, Currency::BRL)));
    let tx = paid_handler().expense_for(&ev, Some(account(Currency::BRL)), date(2026, 3, 1)).unwrap();
    assert_eq!(tx.tx_type, TransactionType::Expense);
    assert_eq!(tx.amount, Money::new(150_00, Currency::BRL));
    assert_eq!(tx.account_id, AccountID(11));
    assert_eq!(tx.date, date(2026, 3, 1));
    assert_eq!(tx.description, "Bill payment - 01234567-89ab-cdef-0011-223344556677");
    assert!(tx.validate().is_ok());
}

#[test]
fn test_bill_paid_no_amount_fails() {
    let r = paid_handler().expense_for(&paid_event(None), Some(account(Currency::BRL)), date(2026, 3, 1));
    match r {
        Err(BillsError::InvariantViolation(m)) => assert_eq!(m, "cannot create transaction for bill with no amount"),
        _ => panic!("a bill without amount cannot be paid into the ledger"),
    }
}

#[test]
fn test_bill_paid_account_not_found() {
    let r = paid_handler().expense_for(&paid_event(Some(Money::new(10_00, Currency::BRL))), None, date(2026, 3, 1));
    match r {
        Err(BillsError::InvariantViolation(m)) => {
            assert_eq!(m, format!("account {} not found for bill payment", uuid_string(11)));
            assert_eq!(m, "account 00000000-0000-0000-0000-00000000000b not found for bill payment");
        }
        _ => panic!("an unknown account is refused"),
    }
}

#[test]
fn test_bill_paid_currency_mismatch() {
    let r = paid_handler().expense_for(&paid_event(Some(Money::new(10_00, Currency::USD))), Some(account(Currency::BRL)), date(2026, 3, 1));
    match r {
        Err(BillsError::InvariantViolation(m)) => assert_eq!(m, "currency mismatch: bill amount is USD but account is BRL"),
        _ => panic!("a payment in another currency is refused"),
    }
}

#[test]
fn test_bill_paid_preserves_category() {
    let tx = paid_handler()
        .expense_for(&paid_event(Some(Money::new(1, Currency::EUR))), Some(account(Currency::EUR)), date(2026, 3, 1))
        .unwrap();
    assert_eq!(tx.category_id, Some(CategoryID(77)));
}

#[test]
fn bill_paid_non_positive_amount_is_refused_by_the_ledger() {
    let r = paid_handler().expense_for(&paid_event(Some(Money::new(0, Currency::BRL))), Some(account(Currency::BRL)), date(2026, 3, 1));
    assert!(matches!(r, Err(BillsError::Ledger(LedgerError::InvariantViolation(_)))));
}

#[test]
fn bill_event_names() {
    let s = BillScheduled { bill_id: BillID(1), name: "x".into(), amount: None, due_date: date(2026, 1, 1), timestamp: 5 };
    assert_eq!(s.event_type(), "BillScheduled");
    assert_eq!(s.timestamp(), 5);
    assert_eq!(paid_event(None).event_type(), "BillPaid");
    let o = BillOverdue { bill_id: BillID(1), due_date: date(2026, 1, 1), timestamp: 1 };
    assert_eq!(o.event_type(), "BillOverdue");
    let d = BillDueSoon { bill_id: BillID(1), due_date: date(2026, 1, 1), days_until_due: 3, timestamp: 1 };
    assert_eq!(d.event_type(), "BillDueSoon");
}
