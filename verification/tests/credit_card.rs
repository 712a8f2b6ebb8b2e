use std::sync::Arc;
use zxc_money::credit_card::application::check_limit::CreditCardService;
use zxc_money::credit_card::application::close_invoice::CloseInvoiceHandler;
use zxc_money::credit_card::application::installments::{add_months, split_installments};
use zxc_money::credit_card::application::pay_invoice::{PayInvoiceCommand, PayInvoiceHandler};
use zxc_money::credit_card::application::register_card::{RegisterCardCommand, RegisterCardHandler};
use zxc_money::credit_card::application::register_purchase::{RegisterPurchaseCommand, RegisterPurchaseHandler};
use zxc_money::credit_card::domain::card::CreditCard;
use zxc_money::credit_card::domain::invoice::{Invoice, InvoiceStatus};
use zxc_money::credit_card::domain::purchase::Purchase;
use zxc_money::provider::id::MockIdGenerator;
use zxc_money::shared::date::{Date, YearMonth};
use zxc_money::shared::errors::CreditCardError;
use zxc_money::shared::ids::{CategoryID, CreditCardID, InstallmentGroupID, InvoiceID, Principal, PurchaseID, UserID};
use zxc_money::shared::money::{Currency, Money};

type Purchases = RegisterPurchaseHandler<(), (), (), MockIdGenerator>;

fn date(y: i32, m: u32, d: u32) -> Date {
    Date::from_ymd_opt(y, m, d).unwrap()
}

fn make_card(limit_cents: i64) -> CreditCard {
    CreditCard::new(
        CreditCardID::new(),
        UserID::new(),
        "Nubank".into(),
        "Mastercard".into(),
        Money::new(limit_cents, Currency::BRL),
        20,
        27,
    )
}

#[test]
fn test_available_limit_within_bound() {
    let card = make_card(1000000);
    let available = card.available_limit(Money::new(300000, Currency::BRL)).unwrap();
    assert_eq!(available, Money::new(700000, Currency::BRL));
}

#[test]
fn test_available_limit_exact() {
    let card = make_card(1000000);
    let available = card.available_limit(Money::new(1000000, Currency::BRL)).unwrap();
    assert_eq!(available, Money::new(0, Currency::BRL));
}

#[test]
fn test_available_limit_exceeds() {
    let card = make_card(1000000);
    let available = card.available_limit(Money::new(1500000, Currency::BRL)).unwrap();
    assert!(available.amount() < 0);
}

#[test]
fn test_available_limit_zero_used() {
    let card = make_card(500000);
    let available = card.available_limit(Money::new(0, Currency::BRL)).unwrap();
    assert_eq!(available, Money::new(500000, Currency::BRL));
}

#[test]
fn available_limit_other_currency_refused() {
    let card = make_card(500000);
    match card.available_limit(Money::new(1, Currency::USD)) {
        Err(CreditCardError::InvariantViolation(m)) => assert_eq!(m, "used amount exceeds limit"),
        _ => panic!("a used amount in another currency is refused"),
    }
}

fn make_purchase(cents: i64) -> Purchase {
    Purchase::new(PurchaseID::new(), "Netflix".into(), Money::new(cents, Currency::BRL), 1, CategoryID::new(), date(2026, 1, 10))
}

fn make_invoice() -> Invoice {
    Invoice::new(InvoiceID::new(), CreditCardID::new(), YearMonth::new(2026, 1))
}

#[test]
fn test_new_invoice_is_open() {
    let invoice = make_invoice();
    assert!(invoice.is_open());
    assert_eq!(invoice.purchases.len(), 0);
    assert_eq!(invoice.status, InvoiceStatus::Open);
}

#[test]
fn test_add_purchase_to_open_invoice() {
    let mut invoice = make_invoice();
    invoice.add_purchase(make_purchase(5000)).unwrap();
    assert_eq!(invoice.purchases.len(), 1);
}

#[test]
fn test_add_purchase_to_closed_invoice_fails() {
    let mut invoice = make_invoice();
    invoice.close().unwrap();
    let result = invoice.add_purchase(make_purchase(5000));
    assert!(matches!(result, Err(CreditCardError::InvoiceNotOpen)));
}

#[test]
fn test_close_open_invoice() {
    let mut invoice = make_invoice();
    invoice.close().unwrap();
    assert_eq!(invoice.status, InvoiceStatus::Closed);
    assert!(invoice.closed_at.is_some());
}

#[test]
fn test_close_already_closed_fails() {
    let mut invoice = make_invoice();
    invoice.close().unwrap();
    let result = invoice.close();
    assert!(matches!(result, Err(CreditCardError::InvoiceNotOpen)));
}

#[test]
fn invoice_test_pay_closed_invoice() {
    let mut invoice = make_invoice();
    invoice.close().unwrap();
    invoice.pay().unwrap();
    assert_eq!(invoice.status, InvoiceStatus::Paid);
}

#[test]
fn invoice_test_pay_open_invoice_fails() {
    let mut invoice = make_invoice();
    let result = invoice.pay();
    assert!(matches!(result, Err(CreditCardError::InvariantViolation(_))));
}

#[test]
fn test_total_empty_invoice() {
    let invoice = make_invoice();
    assert_eq!(invoice.total(), Money::new(0, Currency::BRL));
}

#[test]
fn test_total_with_purchases() {
    let mut invoice = make_invoice();
    invoice.add_purchase(make_purchase(5000)).unwrap();
    invoice.add_purchase(make_purchase(3000)).unwrap();
    invoice.add_purchase(make_purchase(2000)).unwrap();
    assert_eq!(invoice.total(), Money::new(10000, Currency::BRL));
}

#[test]
fn invoice_lifecycle_paid_is_final() {
    let mut invoice = make_invoice();
    invoice.add_purchase(make_purchase(700)).unwrap();
    invoice.close().unwrap();
    let closed_total = invoice.total();
    invoice.pay().unwrap();
    assert_eq!(invoice.total(), closed_total);
    assert!(matches!(invoice.add_purchase(make_purchase(1)), Err(CreditCardError::InvoiceNotOpen)));
    assert!(matches!(invoice.close(), Err(CreditCardError::InvoiceNotOpen)));
    match invoice.pay() {
        Err(CreditCardError::InvariantViolation(m)) => assert_eq!(m, "only closed invoices can be paid"),
        _ => panic!("a paid invoice cannot be paid again"),
    }
    assert_eq!(invoice.status, InvoiceStatus::Paid);
    assert_eq!(invoice.purchases.len(), 1);
}

#[test]
fn invoice_total_undefined_across_currencies() {
    let mut invoice = make_invoice();
    invoice.add_purchase(make_purchase(100)).unwrap();
    let usd = Purchase::new(PurchaseID::new(), "Book".into(), Money::new(100, Currency::USD), 1, CategoryID::new(), date(2026, 1, 10));
    invoice.add_purchase(usd).unwrap();
    assert!(invoice.try_total().is_none());
    let mut big = make_invoice();
    big.add_purchase(make_purchase(i64::MAX)).unwrap();
    big.add_purchase(make_purchase(1)).unwrap();
    assert!(big.try_total().is_none());
}

fn purchase_with(total: i64, n: u32) -> Purchase {
    Purchase::new(PurchaseID::new(), "TV".into(), Money::new(total, Currency::BRL), n, CategoryID::new(), date(2026, 1, 10))
}

#[test]
fn test_single_installment() {
    assert_eq!(purchase_with(5000, 1).installment_amount(), Money::new(5000, Currency::BRL));
}

#[test]
fn test_three_installments() {
    assert_eq!(purchase_with(9000, 3).installment_amount(), Money::new(3000, Currency::BRL));
}

#[test]
fn test_ten_installments() {
    assert_eq!(purchase_with(50000, 10).installment_amount(), Money::new(5000, Currency::BRL));
}

#[test]
fn test_integer_division_truncates() {
    assert_eq!(purchase_with(1000, 3).installment_amount(), Money::new(333, Currency::BRL));
}

#[test]
fn test_division_by_one() {
    assert_eq!(purchase_with(1500, 1).installment_amount(), Money::new(1500, Currency::BRL));
}

#[test]
fn installment_amount_truncates_toward_zero() {
    assert_eq!(purchase_with(-1000, 3).installment_amount(), Money::new(-333, Currency::BRL));
}

#[test]
fn split_installments_adds_up() {
    let cents = |v: Vec<Money>| v.iter().map(|m| m.cents).collect::<Vec<i64>>();
    assert_eq!(cents(split_installments(Money::new(1000, Currency::BRL), 3)), vec![333, 333, 334]);
    assert_eq!(cents(split_installments(Money::new(2000, Currency::BRL), 3)), vec![667, 667, 666]);
    assert_eq!(cents(split_installments(Money::new(5, Currency::BRL), 2)), vec![2, 3]);
    assert_eq!(cents(split_installments(Money::new(7, Currency::BRL), 2)), vec![4, 3]);
    assert_eq!(cents(split_installments(Money::new(-1000, Currency::BRL), 3)), vec![-333, -333, -334]);
    assert_eq!(cents(split_installments(Money::new(i64::MAX, Currency::BRL), 1)), vec![i64::MAX]);
    let big = split_installments(Money::new(i64::MIN, Currency::EUR), 7);
    assert_eq!(big.iter().map(|m| m.cents as i128).sum::<i128>(), i64::MIN as i128);
    assert!(big.iter().all(|m| m.currency == Currency::EUR));
}

#[test]
fn add_months_crosses_years() {
    assert_eq!(add_months(&YearMonth::new(2026, 11), 2), YearMonth::new(2027, 1));
    assert_eq!(add_months(&YearMonth::new(2026, 1), 0), YearMonth::new(2026, 1));
    assert_eq!(add_months(&YearMonth::new(2026, 12), 25), YearMonth::new(2029, 1));
    assert_eq!(add_months(&YearMonth::new(-1, 1), 0), YearMonth::new(-1, 1));
    assert_eq!(add_months(&YearMonth::new(-1, 2), 1), YearMonth::new(-1, 3));
    assert_eq!(add_months(&YearMonth::new(-1, 12), 1), YearMonth::new(0, 1));
}

fn purchase_cmd(owner: UserID, card: CreditCardID, total: i64, n: u32, at: Date) -> RegisterPurchaseCommand {
    RegisterPurchaseCommand {
        owner_id: owner,
        credit_card_id: card,
        description: "TV".into(),
        total_amount: Money::from_cents(total, Currency::BRL),
        installments_count: n,
        category_id: CategoryID(4),
        purchased_at: at,
    }
}

fn purchases(id: u128) -> Purchases {
    RegisterPurchaseHandler::new(Arc::new(()), Arc::new(()), Arc::new(()), Arc::new(MockIdGenerator::new(id)))
}

#[test]
fn test_single_installment_adds_to_open_invoice() {
    let owner = UserID::new();
    let card = CreditCard::new(CreditCardID(1), owner, "Nubank".into(), "Mastercard".into(), Money::from_cents(500000, Currency::BRL), 20, 27);
    let cmd = purchase_cmd(owner, CreditCardID(1), 5000, 1, date(2026, 1, 15));
    assert!(Purchases::check(Some(card), &cmd).is_ok());
    let h = purchases(3);
    let p = h.single_purchase(&cmd);
    let inv = h.invoice_or_new(None, CreditCardID(1), YearMonth::from_date(cmd.purchased_at));
    assert_eq!(inv.id, InvoiceID(3));
    let (inv, ev) = Purchases::file_purchase(inv, p, CreditCardID(1)).unwrap();
    assert_eq!(inv.purchases.len(), 1);
    assert_eq!(inv.purchases[0].total_amount, Money::from_cents(5000, Currency::BRL));
    assert_eq!(ev.amount, Money::from_cents(5000, Currency::BRL));
    assert_eq!(ev.purchase_id, PurchaseID(3));
    assert_eq!(ev.event_type(), "PurchaseAdded");
}

fn installment_amounts(total: i64, at: Date) -> Vec<(YearMonth, i64, u32)> {
    let cmd = purchase_cmd(UserID(1), CreditCardID(1), total, 3, at);
    Purchases::installments(&cmd).unwrap().iter().map(|i| (i.reference_month, i.amount.cents, i.number)).collect()
}

#[test]
fn test_three_installments_split_across_months() {
    let plan = installment_amounts(9000, date(2026, 1, 15));
    assert_eq!(plan, vec![
        (YearMonth::new(2026, 1), 3000, 1),
        (YearMonth::new(2026, 2), 3000, 2),
        (YearMonth::new(2026, 3), 3000, 3),
    ]);
    let cmd = purchase_cmd(UserID(1), CreditCardID(1), 9000, 3, date(2026, 1, 15));
    let h = purchases(8);
    let group = h.new_group();
    let items = Purchases::installments(&cmd).unwrap();
    let p = h.installment_purchase(&cmd, &items[1], group);
    assert_eq!(p.installment_group_id, Some(InstallmentGroupID(8)));
    assert_eq!(p.installment_number, 2);
    assert_eq!(p.installments_count, 3);
    assert_eq!(p.purchased_at, date(2026, 2, 1));
}

#[test]
fn test_installment_remainder_goes_to_last() {
    let plan = installment_amounts(1000, date(2026, 6, 10));
    assert_eq!(plan, vec![
        (YearMonth::new(2026, 6), 333, 1),
        (YearMonth::new(2026, 7), 333, 2),
        (YearMonth::new(2026, 8), 334, 3),
    ]);
}

#[test]
fn test_installments_cross_year_boundary() {
    let plan = installment_amounts(12000, date(2026, 11, 10));
    assert_eq!(plan, vec![
        (YearMonth::new(2026, 11), 4000, 1),
        (YearMonth::new(2026, 12), 4000, 2),
        (YearMonth::new(2027, 1), 4000, 3),
    ]);
}

#[test]
fn test_wrong_owner_fails() {
    let card = make_card(500000);
    let cmd = purchase_cmd(UserID::new(), card.id, 5000, 1, date(2026, 1, 15));
    assert!(matches!(Purchases::check(Some(card), &cmd), Err(CreditCardError::InvariantViolation(_))));
}

#[test]
fn test_zero_installments_fails() {
    let card = make_card(500000);
    let cmd = purchase_cmd(card.owner_id, card.id, 5000, 0, date(2026, 1, 15));
    match Purchases::check(Some(card), &cmd) {
        Err(CreditCardError::InvariantViolation(m)) => assert_eq!(m, "installments_count must be >= 1"),
        _ => panic!("zero installments are refused"),
    }
    assert!(Purchases::installments(&cmd).is_none());
    let missing = Purchases::check(None, &cmd);
    assert!(matches!(missing, Err(CreditCardError::CreditCardNotFound(_))));
}

#[test]
fn test_close_invoice() {
    let mut inv = make_invoice();
    inv.add_purchase(make_purchase(5000)).unwrap();
    inv.add_purchase(make_purchase(3000)).unwrap();
    let card_id = inv.credit_card_id;
    let (closed, ev) = CloseInvoiceHandler::<(), (), ()>::close(Some(inv), card_id).unwrap();
    assert_eq!(closed.status, InvoiceStatus::Closed);
    assert_eq!(ev.total, Money::new(8000, Currency::BRL));
    assert_eq!(ev.invoice_id, closed.id);
    assert_eq!(ev.event_type(), "InvoiceClosed");
}

#[test]
fn test_close_no_open_invoice() {
    match CloseInvoiceHandler::<(), (), ()>::close(None, CreditCardID(1)) {
        Err(CreditCardError::InvariantViolation(m)) => assert_eq!(m, "no open invoice found"),
        _ => panic!("there is nothing to close"),
    }
}

fn closed_invoice(card: CreditCardID) -> Invoice {
    let mut inv = Invoice::new(InvoiceID(5), card, YearMonth::new(2026, 1));
    inv.add_purchase(make_purchase(1234)).unwrap();
    inv.close().unwrap();
    inv
}

#[test]
fn pay_invoice_test_pay_closed_invoice() {
    let cmd = PayInvoiceCommand { owner_id: UserID(1), credit_card_id: CreditCardID(2), invoice_id: InvoiceID(5) };
    let (paid, ev) = PayInvoiceHandler::<(), (), ()>::pay(Some(closed_invoice(CreditCardID(2))), cmd).unwrap();
    assert_eq!(paid.status, InvoiceStatus::Paid);
    assert_eq!(ev.total, Money::new(1234, Currency::BRL));
    assert_eq!(ev.event_type(), "InvoicePaid");
}

#[test]
fn pay_invoice_test_pay_open_invoice_fails() {
    let cmd = PayInvoiceCommand { owner_id: UserID(1), credit_card_id: CreditCardID(2), invoice_id: InvoiceID(5) };
    let open = Invoice::new(InvoiceID(5), CreditCardID(2), YearMonth::new(2026, 1));
    assert!(matches!(PayInvoiceHandler::<(), (), ()>::pay(Some(open), cmd), Err(CreditCardError::InvariantViolation(_))));
}

#[test]
fn test_pay_wrong_invoice() {
    let cmd = PayInvoiceCommand { owner_id: UserID(1), credit_card_id: CreditCardID(3), invoice_id: InvoiceID(5) };
    match PayInvoiceHandler::<(), (), ()>::pay(Some(closed_invoice(CreditCardID(2))), cmd) {
        Err(CreditCardError::InvariantViolation(m)) => assert_eq!(m, "invoice does not belong to this credit card"),
        _ => panic!("an invoice of another card is refused"),
    }
}

#[test]
fn test_pay_invoice_not_found() {
    let cmd = PayInvoiceCommand { owner_id: UserID(1), credit_card_id: CreditCardID(3), invoice_id: InvoiceID(5) };
    assert!(matches!(PayInvoiceHandler::<(), (), ()>::pay(None, cmd), Err(CreditCardError::InvoiceNotFound(InvoiceID(5)))));
}

#[test]
fn test_register_card() {
    let h = RegisterCardHandler::new(Arc::new(()), Arc::new(MockIdGenerator::new(12)));
    let owner = UserID::new();
    let card = h.card(RegisterCardCommand {
        principal: Principal::new(owner),
        name: "Nubank".into(),
        brand: "Mastercard".into(),
        limit: Money::new(500000, Currency::BRL),
        closing_day: 20,
        due_day: 27,
    });
    assert_eq!(card.id, CreditCardID(12));
    assert_eq!(card.owner_id, owner);
    assert_eq!(card.limit, Money::new(500000, Currency::BRL));
}

#[test]
fn test_summary_no_open_invoice() {
    let card = make_card(1000000);
    let (used, available) = CreditCardService::<()>::usage(&card, None).unwrap();
    assert_eq!(used, Money::new(0, Currency::BRL));
    assert_eq!(available, Money::new(1000000, Currency::BRL));
}

#[test]
fn test_summary_with_open_invoice() {
    let card = make_card(1000000);
    let mut inv = Invoice::new(InvoiceID::new(), card.id, YearMonth::new(2026, 1));
    inv.add_purchase(make_purchase(5000)).unwrap();
    inv.add_purchase(make_purchase(3000)).unwrap();
    let (used, available) = CreditCardService::<()>::usage(&card, Some(inv)).unwrap();
    assert_eq!(used, Money::new(8000, Currency::BRL));
    assert_eq!(available, Money::new(992000, Currency::BRL));
}

#[test]
fn credit_card_flow_scenario() {
    let card = make_card(10_000_00);
    let mut invoice = Invoice::new(InvoiceID::new(), card.id, YearMonth::new(2026, 1));
    let netflix = Purchase::new(PurchaseID::new(), "Netflix".into(), Money::new(39_90, Currency::BRL), 1, CategoryID::new(), date(2026, 1, 5));
    let market = Purchase::new(PurchaseID::new(), "Supermarket".into(), Money::new(350_00, Currency::BRL), 1, CategoryID::new(), date(2026, 1, 10));
    let tv = Purchase::new(PurchaseID::new(), "Smart TV".into(), Money::new(3_000_00, Currency::BRL), 3, CategoryID::new(), date(2026, 1, 15));
    invoice.add_purchase(netflix).unwrap();
    invoice.add_purchase(market).unwrap();
    invoice.add_purchase(tv).unwrap();
    assert_eq!(invoice.purchases.len(), 3);
    assert_eq!(invoice.total(), Money::new(3_389_90, Currency::BRL));
    invoice.close().unwrap();
    assert!(invoice.closed_at.is_some());
    invoice.pay().unwrap();
    assert_eq!(invoice.status, InvoiceStatus::Paid);
    let available = card.available_limit(Money::new(3_389_90, Currency::BRL)).unwrap();
    assert_eq!(available, Money::new(6_610_10, Currency::BRL));
}
