use chrono::Datelike;
use zxc_money::bills::domain::bill::BillStatus;
use zxc_money::bills::domain::events::{BillPaid, BillScheduled};
use zxc_money::bills::projections::bill_calendar::BillCalendarStore;
use zxc_money::shared::date::Date;
use zxc_money::shared::ids::{AccountID, BillID, CategoryID};
use zxc_money::shared::money::{Currency, Money};

fn date(y: i32, m: u32, d: u32) -> Date {
    Date::from_ymd_opt(y, m, d).unwrap()
}

fn today_plus(days: i64) -> Date {
    let d = chrono::Utc::now().date_naive() + chrono::Duration::days(days);
    Date { year: d.year(), month: d.month(), day: d.day() }
}

fn make_event(bill_id: BillID, name: &str, amount: Option<Money>, due_date: Date) -> BillScheduled {
    BillScheduled {
        bill_id,
        name: name.into(),
        amount,
        due_date,
        timestamp: chrono::Utc::now().timestamp_millis(),
    }
}

fn paid_event(bill_id: BillID, amount: Option<Money>) -> BillPaid {
    BillPaid {
        bill_id,
        amount,
        account_id: AccountID::new(),
        category_id: CategoryID::new(),
        timestamp: chrono::Utc::now().timestamp_millis(),
    }
}

#[test]
fn test_handle_bill_scheduled() {
    let mut store = BillCalendarStore::new();
    let id = BillID::new();
    let event = make_event(id, "Rent", Some(Money::new(1500_00, Currency::BRL)), date(2026, 3, 5));

    store.handle_bill_scheduled(&event);

    let entries = store.find_by_month(2026, 3);
    assert_eq!(entries.len(), 1);
    assert_eq!(entries[0].name, "Rent");
    assert_eq!(entries[0].status, BillStatus::Pending);
}

#[test]
fn test_handle_bill_paid() {
    let mut store = BillCalendarStore::new();
    let id = BillID::new();
    let event = make_event(id, "Internet", Some(Money::new(99_90, Currency::BRL)), date(2026, 2, 10));

    store.handle_bill_scheduled(&event);
    store.handle_bill_paid(&paid_event(id, Some(Money::new(99_90, Currency::BRL))));

    let entries = store.find_by_month(2026, 2);
    assert_eq!(entries[0].status, BillStatus::Paid);
}

#[test]
fn test_find_by_month_filters_correctly() {
    let mut store = BillCalendarStore::new();
    store.handle_bill_scheduled(&make_event(BillID::new(), "Jan bill", None, date(2026, 1, 15)));
    store.handle_bill_scheduled(&make_event(BillID::new(), "Feb bill", None, date(2026, 2, 10)));
    store.handle_bill_scheduled(&make_event(BillID::new(), "Jan bill 2", None, date(2026, 1, 20)));

    let jan = store.find_by_month(2026, 1);
    assert_eq!(jan.len(), 2);
    let feb = store.find_by_month(2026, 2);
    assert_eq!(feb.len(), 1);
}

#[test]
fn test_daily_totals_only_pending() {
    let mut store = BillCalendarStore::new();
    let id1 = BillID::new();
    let id2 = BillID::new();

    store.handle_bill_scheduled(&make_event(id1, "Paid bill", Some(Money::new(100_00, Currency::BRL)), date(2026, 4, 5)));
    store.handle_bill_scheduled(&make_event(id2, "Pending bill", Some(Money::new(200_00, Currency::BRL)), date(2026, 4, 5)));
    store.handle_bill_paid(&paid_event(id1, Some(Money::new(100_00, Currency::BRL))));

    let totals = store.daily_totals(2026, 4);
    assert_eq!(totals.len(), 1);
    assert_eq!(totals[0].total, Money::new(200_00, Currency::BRL));
}

#[test]
fn test_daily_totals_groups_by_date() {
    let mut store = BillCalendarStore::new();
    store.handle_bill_scheduled(&make_event(BillID::new(), "Bill A", Some(Money::new(50_00, Currency::BRL)), date(2026, 5, 10)));
    store.handle_bill_scheduled(&make_event(BillID::new(), "Bill B", Some(Money::new(75_00, Currency::BRL)), date(2026, 5, 10)));
    store.handle_bill_scheduled(&make_event(BillID::new(), "Bill C", Some(Money::new(30_00, Currency::BRL)), date(2026, 5, 15)));

    let totals = store.daily_totals(2026, 5);
    assert_eq!(totals.len(), 2);
    assert_eq!(totals[0].total, Money::new(125_00, Currency::BRL));
    assert_eq!(totals[1].total, Money::new(30_00, Currency::BRL));
}

#[test]
fn test_find_upcoming() {
    let mut store = BillCalendarStore::new();
    store.handle_bill_scheduled(&make_event(BillID::new(), "Due tomorrow", None, today_plus(1)));
    store.handle_bill_scheduled(&make_event(BillID::new(), "Due in 10 days", None, today_plus(10)));
    store.handle_bill_scheduled(&make_event(BillID::new(), "Due in 30 days", None, today_plus(30)));

    let upcoming = store.find_upcoming(7);
    assert_eq!(upcoming.len(), 1);
    assert_eq!(upcoming[0].name, "Due tomorrow");
}

#[test]
fn test_find_upcoming_excludes_paid() {
    let mut store = BillCalendarStore::new();
    let id = BillID::new();
    store.handle_bill_scheduled(&make_event(id, "Paid bill", None, today_plus(2)));
    store.handle_bill_paid(&paid_event(id, None));

    let upcoming = store.find_upcoming(7);
    assert_eq!(upcoming.len(), 0);
}

#[test]
fn test_daily_totals_sorted_by_date() {
    let mut store = BillCalendarStore::new();
    store.handle_bill_scheduled(&make_event(BillID::new(), "Later", Some(Money::new(100_00, Currency::BRL)), date(2026, 6, 20)));
    store.handle_bill_scheduled(&make_event(BillID::new(), "Earlier", Some(Money::new(50_00, Currency::BRL)), date(2026, 6, 5)));

    let totals = store.daily_totals(2026, 6);
    assert!(totals[0].date < totals[1].date);
}

#[test]
fn calendar_rescheduling_replaces_entry() {
    let mut store = BillCalendarStore::new();
    let id = BillID::new();
    store.handle_bill_scheduled(&make_event(id, "Old", None, date(2026, 7, 1)));
    store.handle_bill_scheduled(&make_event(id, "New", None, date(2026, 7, 2)));
    let july = store.find_by_month(2026, 7);
    assert_eq!(july.len(), 1);
    assert_eq!(july[0].name, "New");
    assert_eq!(july[0].due_date, date(2026, 7, 2));
}

#[test]
fn calendar_paid_bill_stays_listed() {
    let mut store = BillCalendarStore::new();
    let id = BillID::new();
    store.handle_bill_scheduled(&make_event(id, "Water", Some(Money::new(80_00, Currency::BRL)), date(2026, 8, 3)));
    store.handle_bill_paid(&paid_event(id, Some(Money::new(80_00, Currency::BRL))));
    let aug = store.find_by_month(2026, 8);
    assert_eq!(aug.len(), 1);
    assert_eq!(aug[0].status, BillStatus::Paid);
    assert!(store.daily_totals(2026, 8).is_empty());
}

#[test]
fn calendar_paying_unknown_bill_changes_nothing() {
    let mut store = BillCalendarStore::default();
    store.handle_bill_scheduled(&make_event(BillID::new(), "Gas", None, date(2026, 9, 9)));
    store.handle_bill_paid(&paid_event(BillID::new(), None));
    assert_eq!(store.find_by_month(2026, 9)[0].status, BillStatus::Pending);
}

#[test]
fn calendar_daily_totals_skip_bills_without_amount_and_other_months() {
    let mut store = BillCalendarStore::new();
    store.handle_bill_scheduled(&make_event(BillID::new(), "Variable", None, date(2026, 10, 1)));
    store.handle_bill_scheduled(&make_event(BillID::new(), "Next month", Some(Money::new(10_00, Currency::BRL)), date(2026, 11, 1)));
    store.handle_bill_scheduled(&make_event(BillID::new(), "Fixed", Some(Money::new(42_00, Currency::BRL)), date(2026, 10, 31)));
    let totals = store.daily_totals(2026, 10);
    assert_eq!(totals.len(), 1);
    assert_eq!(totals[0].date, date(2026, 10, 31));
    assert_eq!(totals[0].total, Money::new(42_00, Currency::BRL));
}

#[test]
fn calendar_daily_totals_report_overflow() {
    let mut store = BillCalendarStore::new();
    store.handle_bill_scheduled(&make_event(BillID::new(), "Huge", Some(Money::new(i64::MAX, Currency::BRL)), date(2026, 12, 1)));
    store.handle_bill_scheduled(&make_event(BillID::new(), "More", Some(Money::new(1, Currency::BRL)), date(2026, 12, 1)));
    assert!(store.try_daily_totals(2026, 12).is_none());
    let mut other = BillCalendarStore::new();
    other.handle_bill_scheduled(&make_event(BillID::new(), "Huge", Some(Money::new(i64::MAX, Currency::BRL)), date(2026, 12, 1)));
    other.handle_bill_scheduled(&make_event(BillID::new(), "Refund", Some(Money::new(-5, Currency::BRL)), date(2026, 12, 1)));
    let totals = other.try_daily_totals(2026, 12).unwrap();
    assert_eq!(totals[0].total, Money::new(i64::MAX - 5, Currency::BRL));
}

#[test]
fn calendar_upcoming_includes_today_and_the_last_day() {
    let mut store = BillCalendarStore::new();
    store.handle_bill_scheduled(&make_event(BillID::new(), "Today", None, today_plus(0)));
    store.handle_bill_scheduled(&make_event(BillID::new(), "Last day", None, today_plus(7)));
    store.handle_bill_scheduled(&make_event(BillID::new(), "Yesterday", None, today_plus(-1)));
    store.handle_bill_scheduled(&make_event(BillID::new(), "Too late", None, today_plus(8)));
    let upcoming = store.find_upcoming(7);
    assert_eq!(upcoming.len(), 2);
    assert_eq!(upcoming[0].name, "Today");
    assert_eq!(upcoming[1].name, "Last day");
}
