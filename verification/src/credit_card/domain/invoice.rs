//! The monthly invoice of a credit card.
use crate::credit_card::domain::purchase::Purchase;
use crate::shared::clock::{now_millis, Timestamp};
use crate::shared::date::YearMonth;
use crate::shared::errors::CreditCardError;
use crate::shared::ids::{CreditCardID, InvoiceID};
use crate::shared::money::{Currency, Money};
use vstd::prelude::*;

verus! {

/// Lifecycle of an invoice: purchases are added while it is open, it is
/// then closed, and a closed invoice is paid.
#[derive(Debug, Clone, Copy, PartialEq, Eq, Structural, Hash)]
pub enum InvoiceStatus {
    Open,
    Closed,
    Paid,
}

/// The purchases of a card for one reference month.
#[derive(Debug, Clone)]
pub struct Invoice {
    pub id: InvoiceID,
    pub credit_card_id: CreditCardID,
    pub reference_month: YearMonth,
    pub purchases: Vec<Purchase>,
    pub status: InvoiceStatus,
    pub closed_at: Option<Timestamp>,
    pub created_at: Timestamp,
}

/// Sum, in cents, of the amounts of the purchases.
pub open spec fn purchases_cents(s: Seq<Purchase>) -> int
    decreases s.len(),
{
    if s.len() == 0 {
        0
    } else {
        purchases_cents(s.drop_last()) + s.last().total_amount.cents
    }
}

/// Currency in which an invoice holding `s` is totalled: that of its first
/// purchase, Brazilian reais when it has none.
pub open spec fn invoice_currency(s: Seq<Purchase>) -> Currency {
    if s.len() == 0 {
        Currency::BRL
    } else {
        s[0].total_amount.currency
    }
}

/// The total of `s` exists: all purchases are in one currency and the sum
/// fits in 64 bits of cents.
pub open spec fn total_defined(s: Seq<Purchase>) -> bool {
    &&& forall|i: int| 0 <= i < s.len() ==> (#[trigger] s[i]).total_amount.currency == invoice_currency(s)
    &&& i64::MIN <= purchases_cents(s) <= i64::MAX
}

/// A sum of purchases is bounded by their number times the largest
/// magnitude of a 64-bit amount.
proof fn lemma_purchases_cents_bound(s: Seq<Purchase>)
    ensures
        -(s.len() * 0x8000_0000_0000_0000) <= purchases_cents(s) <= s.len() * 0x8000_0000_0000_0000,
    decreases s.len(),
{
    if s.len() > 0 {
        lemma_purchases_cents_bound(s.drop_last());
    }
}

/// The invoice `inv` once closed at time `at`.
pub open spec fn closed_invoice(inv: Invoice, at: Timestamp) -> Invoice {
    Invoice { status: InvoiceStatus::Closed, closed_at: Some(at), ..inv }
}

/// The invoice `inv` once paid.
pub open spec fn paid_invoice(inv: Invoice) -> Invoice {
    Invoice { status: InvoiceStatus::Paid, ..inv }
}

/// The lifecycle of an invoice runs Open, Closed, Paid: an open invoice
/// can be closed, a closed one can be paid, and a paid one accepts nothing
/// more (no purchase, no closing, no payment). Closing and paying keep the
/// purchases, so the total announced when the invoice is paid is the one
/// announced when it was closed.
pub proof fn lemma_invoice_lifecycle(inv: Invoice, at: Timestamp)
    requires
        inv.status == InvoiceStatus::Open,
    ensures
        closed_invoice(inv, at).status == InvoiceStatus::Closed,
        paid_invoice(closed_invoice(inv, at)).status == InvoiceStatus::Paid,
        paid_invoice(closed_invoice(inv, at)).status != InvoiceStatus::Open,
        paid_invoice(closed_invoice(inv, at)).status != InvoiceStatus::Closed,
        closed_invoice(inv, at).purchases == inv.purchases,
        paid_invoice(closed_invoice(inv, at)).purchases == inv.purchases,
        paid_invoice(closed_invoice(inv, at)).spec_total() == closed_invoice(inv, at).spec_total(),
        closed_invoice(inv, at).spec_total() == inv.spec_total(),
{
}

impl Invoice {
    /// The total of the invoice, where it is defined.
    pub open spec fn spec_total(&self) -> Money {
        Money {
            cents: purchases_cents(self.purchases@) as i64,
            currency: invoice_currency(self.purchases@),
        }
    }

    /// An open, empty invoice of the card for `reference_month`, stamped
    /// with the current time.
    pub fn new(id: InvoiceID, credit_card_id: CreditCardID, reference_month: YearMonth) -> (r: Invoice)
        ensures
            r.id == id,
            r.credit_card_id == credit_card_id,
            r.reference_month == reference_month,
            r.purchases@ == Seq::<Purchase>::empty(),
            r.status == InvoiceStatus::Open,
            r.closed_at is None,
    {
        Invoice {
            id,
            credit_card_id,
            reference_month,
            purchases: Vec::new(),
            status: InvoiceStatus::Open,
            closed_at: None,
            created_at: now_millis(),
        }
    }

    /// Appends a purchase to an open invoice.
    ///
    /// Any other invoice is left unchanged and the answer is
    /// [`CreditCardError::InvoiceNotOpen`].
    pub fn add_purchase(&mut self, purchase: Purchase) -> (r: Result<(), CreditCardError>)
        ensures
            r is Ok <==> old(self).status == InvoiceStatus::Open,
            r is Ok ==> final(self).purchases@ == old(self).purchases@.push(purchase),
            r is Ok ==> final(self).id == old(self).id,
            r is Ok ==> final(self).credit_card_id == old(self).credit_card_id,
            r is Ok ==> final(self).reference_month == old(self).reference_month,
            r is Ok ==> final(self).status == old(self).status,
            r is Ok ==> final(self).closed_at == old(self).closed_at,
            r is Ok ==> final(self).created_at == old(self).created_at,
            r is Err ==> *final(self) == *old(self) && (r matches Err(CreditCardError::InvoiceNotOpen)),
    {
        if self.status != InvoiceStatus::Open {
            return Err(CreditCardError::InvoiceNotOpen);
        }
        self.purchases.push(purchase);
        Ok(())
    }

    /// Closes an open invoice, stamping the time of closing.
    ///
    /// Any other invoice is left unchanged and the answer is
    /// [`CreditCardError::InvoiceNotOpen`].
    pub fn close(&mut self) -> (r: Result<(), CreditCardError>)
        ensures
            r is Ok <==> old(self).status == InvoiceStatus::Open,
            r is Ok ==> (final(self).closed_at matches Some(t) && *final(self) == closed_invoice(
                *old(self),
                t,
            )),
            r is Err ==> *final(self) == *old(self) && (r matches Err(CreditCardError::InvoiceNotOpen)),
    {
        if self.status != InvoiceStatus::Open {
            return Err(CreditCardError::InvoiceNotOpen);
        }
        self.status = InvoiceStatus::Closed;
        self.closed_at = Some(now_millis());
        Ok(())
    }

    /// Marks a closed invoice as paid.
    ///
    /// Any other invoice is left unchanged and the answer is
    /// [`CreditCardError::InvariantViolation`].
    pub fn pay(&mut self) -> (r: Result<(), CreditCardError>)
        ensures
            r is Ok <==> old(self).status == InvoiceStatus::Closed,
            r is Ok ==> *final(self) == paid_invoice(*old(self)),
            r is Err ==> *final(self) == *old(self) && (r matches Err(
                CreditCardError::InvariantViolation(m),
            ) && m@ == "only closed invoices can be paid"@),
    {
        if self.status != InvoiceStatus::Closed {
            return Err(
                CreditCardError::InvariantViolation(
                    String::from_str("only closed invoices can be paid"),
                ),
            );
        }
        self.status = InvoiceStatus::Paid;
        Ok(())
    }

    /// The sum of the purchases, in the currency of the first purchase
    /// (reais for an empty invoice); `None` when the purchases are in
    /// several currencies or the sum does not fit in 64 bits of cents.
    pub fn try_total(&self) -> (r: Option<Money>)
        ensures
            r is Some <==> total_defined(self.purchases@),
            r matches Some(m) ==> m == self.spec_total(),
    {
        let ghost s = self.purchases@;
        let n = self.purchases.len();
        let currency = if n == 0 {
            Currency::BRL
        } else {
            self.purchases[0].total_amount.currency
        };
        let mut acc: i128 = 0;
        let mut i: usize = 0;
        while i < n
            invariant
                s == self.purchases@,
                n == s.len(),
                0 <= i <= n,
                currency == invoice_currency(s),
                acc == purchases_cents(s.take(i as int)),
                forall|j: int| 0 <= j < i ==> (#[trigger] s[j]).total_amount.currency == currency,
            decreases n - i,
        {
            let p = &self.purchases[i];
            if p.total_amount.currency != currency {
                return None;
            }
            proof {
                let t = s.take(i + 1);
                assert(t.drop_last() =~= s.take(i as int));
                assert(t.last() == s[i as int]);
                lemma_purchases_cents_bound(t);
                assert((i + 1) * 0x8000_0000_0000_0000 < 0x7fff_ffff_ffff_ffff_ffff_ffff_ffff_ffff)
                    by (nonlinear_arith)
                    requires
                        i + 1 <= 0xffff_ffff_ffff_ffff,
                ;
            }
            acc = acc + p.total_amount.cents as i128;
            i = i + 1;
        }
        proof {
            assert(s.take(n as int) =~= s);
        }
        if acc < i64::MIN as i128 || acc > i64::MAX as i128 {
            return None;
        }
        Some(Money { cents: acc as i64, currency })
    }

    /// The sum of the purchases, in the currency of the first purchase
    /// (reais for an empty invoice).
    pub fn total(&self) -> (r: Money)
        requires
            total_defined(self.purchases@),
        ensures
            r == self.spec_total(),
    {
        match self.try_total() {
            Some(m) => m,
            None => Money { cents: 0, currency: Currency::BRL },
        }
    }

    /// The invoice still accepts purchases.
    pub fn is_open(&self) -> (r: bool)
        ensures
            r == (self.status == InvoiceStatus::Open),
    {
        self.status == InvoiceStatus::Open
    }
}

} // verus!
