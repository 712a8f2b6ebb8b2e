use zxc_money::ledger::account::{Account, AccountType};
use zxc_money::ledger::transaction::{Transaction, TransactionType};
use zxc_money::provider::id::{IdGenerator, MockIdGenerator, UuidGenerator};
use zxc_money::shared::date::{is_leap, month_length, Date, Period, YearMonth};
use zxc_money::shared::errors::LedgerError;
use zxc_money::shared::ids::{AccountID, CategoryID, TransactionID, UserID};
use zxc_money::shared::money::{Currency, Money, MoneyError};
use zxc_money::shared::text::uuid_string;

#[test]
fn money_arithmetic() {
    let a = Money::new(1050, Currency::BRL);
    let b = Money::new(-300, Currency::BRL);
    assert_eq!(a.checked_add(b), Ok(Money::new(750, Currency::BRL)));
    assert_eq!(a.checked_sub(b), Ok(Money::new(1350, Currency::BRL)));
    assert_eq!(a.checked_add(Money::new(1, Currency::USD)), Err(MoneyError::CurrencyMismatch));
    assert_eq!(Money::new(i64::MAX, Currency::EUR).checked_add(Money::new(1, Currency::EUR)), Err(MoneyError::Overflow));
    assert_eq!(Money::new(i64::MIN, Currency::EUR).checked_sub(Money::new(1, Currency::EUR)), Err(MoneyError::Overflow));
    assert_eq!(b.abs(), Money::new(300, Currency::BRL));
    assert!(b.is_negative() && a.is_positive() && Money::zero(Currency::USD).is_zero());
    assert_eq!(Currency::EUR.code(), "EUR");
    assert_eq!(Currency::BRL.code(), "BRL");
}

#[test]
fn calendar_dates() {
    assert!(Date::from_ymd_opt(2024, 2, 29).is_some());
    assert!(Date::from_ymd_opt(2026, 2, 29).is_none());
    assert!(Date::from_ymd_opt(2026, 13, 1).is_none());
    assert!(Date::from_ymd_opt(262143, 1, 1).is_none());
    assert!(is_leap(2000) && !is_leap(1900) && is_leap(2024) && !is_leap(2026) && is_leap(-4));
    assert_eq!(month_length(2026, 2), 28);
    assert_eq!(month_length(2024, 2), 29);
    assert_eq!(month_length(2026, 4), 30);
    let d = Date::from_ymd_opt(1, 1, 1).unwrap();
    assert_eq!(d.num_days_from_ce(), 1);
    let e = Date::from_ymd_opt(2026, 12, 31).unwrap();
    assert_eq!(e.checked_add_days(1), Date::from_ymd_opt(2027, 1, 1));
    assert_eq!(e.checked_add_days(-365), Date::from_ymd_opt(2025, 12, 31));
    assert!(Date::from_ymd_opt(262142, 12, 31).unwrap().checked_add_days(1).is_none());
    assert!(d.is_before(&e) && !e.is_before(&d) && e.same_day(&e));
}

#[test]
fn months_and_periods() {
    let ym = YearMonth::new(2024, 2);
    assert_eq!(ym.first_day(), Date { year: 2024, month: 2, day: 1 });
    assert_eq!(ym.last_day(), Date { year: 2024, month: 2, day: 29 });
    let p = ym.period();
    assert!(p.contains(&Date { year: 2024, month: 2, day: 15 }));
    assert!(!p.contains(&Date { year: 2024, month: 3, day: 1 }));
    assert_eq!(YearMonth::from_date(Date { year: 2026, month: 7, day: 4 }), YearMonth::new(2026, 7));
    assert_eq!(Period::new(p.start, p.end), p);
}

#[test]
fn identifiers_and_text() {
    assert_eq!(uuid_string(0), "00000000-0000-0000-0000-000000000000");
    assert_eq!(uuid_string(u128::MAX), "ffffffff-ffff-ffff-ffff-ffffffffffff");
    assert_eq!(uuid_string(0x0123_4567_89ab_cdef_fedc_ba98_7654_3210), "01234567-89ab-cdef-fedc-ba9876543210");
    assert_eq!(MockIdGenerator::new(5).new_id(), 5);
    assert_ne!(UuidGenerator.new_id(), UuidGenerator.new_id());
    assert_ne!(UserID::new(), UserID::new());
}

#[test]
fn ledger_entities() {
    assert!(Account::new(AccountID(1), UserID(1), "".into(), AccountType::Cash, Currency::BRL, Money::zero(Currency::BRL)).is_err());
    assert!(Account::new(AccountID(1), UserID(1), "Wallet".into(), AccountType::Cash, Currency::BRL, Money::zero(Currency::USD)).is_err());
    let acc = Account::new(AccountID(1), UserID(1), "Wallet".into(), AccountType::Cash, Currency::BRL, Money::new(100, Currency::BRL)).unwrap();
    assert_eq!(acc.currency(), Currency::BRL);
    let d = Date { year: 2026, month: 1, day: 2 };
    assert!(Transaction::new(TransactionID(1), AccountID(1), TransactionType::Income, Money::new(0, Currency::BRL), "x".into(), d).is_err());
    let t = Transaction::new(TransactionID(1), AccountID(1), TransactionType::Income, Money::new(10, Currency::BRL), "x".into(), d).unwrap();
    assert!(matches!(t.validate(), Err(LedgerError::InvariantViolation(_))));
    let t = t.with_category(CategoryID(3));
    assert!(t.validate().is_ok());
    assert_eq!(LedgerError::InvariantViolation("boom".into()).message(), "invariant violation: boom");
}
