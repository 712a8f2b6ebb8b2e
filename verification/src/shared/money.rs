//! Monetary amounts, held as a whole number of cents in one currency.
use vstd::prelude::*;

verus! {

/// Integer division rounded toward zero, as Rust's `/` divides integers.
pub open spec fn div_toward_zero(a: int, n: int) -> int {
    if a >= 0 {
        a / n
    } else {
        -((-a) / n)
    }
}

/// Currency of an amount.
#[derive(Clone, Copy, Debug, PartialEq, Eq, Structural, Hash)]
pub enum Currency {
    BRL,
    USD,
    EUR,
}

/// ISO 4217 code of a currency.
pub open spec fn currency_code(c: Currency) -> Seq<char> {
    match c {
        Currency::BRL => "BRL"@,
        Currency::USD => "USD"@,
        Currency::EUR => "EUR"@,
    }
}

impl Currency {
    /// ISO 4217 code of the currency.
    pub fn code(&self) -> (r: &'static str)
        ensures
            r@ == currency_code(*self),
    {
        proof {
            reveal_strlit("BRL");
            reveal_strlit("USD");
            reveal_strlit("EUR");
        }
        match self {
            Currency::BRL => "BRL",
            Currency::USD => "USD",
            Currency::EUR => "EUR",
        }
    }
}

/// Why an arithmetic operation on amounts was refused.
#[derive(Clone, Copy, Debug, PartialEq, Eq, Structural, Hash)]
pub enum MoneyError {
    /// The two amounts are in different currencies.
    CurrencyMismatch,
    /// The result does not fit in 64 bits of cents.
    Overflow,
}

/// An amount of money: `cents` hundredths of a unit of `currency`. The
/// amount may be negative.
#[derive(Clone, Copy, Debug, PartialEq, Eq, Structural, Hash)]
pub struct Money {
    pub cents: i64,
    pub currency: Currency,
}

impl Money {
    /// `cents` hundredths of `currency`.
    pub fn new(cents: i64, currency: Currency) -> (r: Money)
        ensures
            r == (Money { cents, currency }),
    {
        Money { cents, currency }
    }

    /// `cents` hundredths of `currency`.
    pub fn from_cents(cents: i64, currency: Currency) -> (r: Money)
        ensures
            r == (Money { cents, currency }),
    {
        Money { cents, currency }
    }

    /// Zero in `currency`.
    pub fn zero(currency: Currency) -> (r: Money)
        ensures
            r == (Money { cents: 0, currency }),
    {
        Money { cents: 0, currency }
    }

    /// The amount in cents.
    pub fn amount(&self) -> (r: i64)
        ensures
            r == self.cents,
    {
        self.cents
    }

    /// The currency of the amount.
    pub fn currency(&self) -> (r: Currency)
        ensures
            r == self.currency,
    {
        self.currency
    }

    /// The amount is zero.
    pub fn is_zero(&self) -> (r: bool)
        ensures
            r == (self.cents == 0),
    {
        self.cents == 0
    }

    /// The amount is greater than zero.
    pub fn is_positive(&self) -> (r: bool)
        ensures
            r == (self.cents > 0),
    {
        self.cents > 0
    }

    /// The amount is less than zero.
    pub fn is_negative(&self) -> (r: bool)
        ensures
            r == (self.cents < 0),
    {
        self.cents < 0
    }

    /// The absolute value of the amount.
    pub fn abs(&self) -> (r: Money)
        requires
            self.cents > i64::MIN,
        ensures
            r.currency == self.currency,
            r.cents == (if self.cents < 0 {
                -self.cents
            } else {
                self.cents as int
            }),
    {
        if self.cents < 0 {
            Money { cents: -self.cents, currency: self.currency }
        } else {
            *self
        }
    }

    /// The sum of two amounts of the same currency.
    pub fn checked_add(self, other: Money) -> (r: Result<Money, MoneyError>)
        ensures
            self.currency != other.currency ==> r == Err::<Money, MoneyError>(
                MoneyError::CurrencyMismatch,
            ),
            self.currency == other.currency && (self.cents + other.cents < i64::MIN
                || self.cents + other.cents > i64::MAX) ==> r == Err::<Money, MoneyError>(
                MoneyError::Overflow,
            ),
            self.currency == other.currency && i64::MIN <= self.cents + other.cents <= i64::MAX
                ==> r == Ok::<Money, MoneyError>(
                Money { cents: (self.cents + other.cents) as i64, currency: self.currency },
            ),
    {
        if self.currency != other.currency {
            return Err(MoneyError::CurrencyMismatch);
        }
        match self.cents.checked_add(other.cents) {
            Some(c) => Ok(Money { cents: c, currency: self.currency }),
            None => Err(MoneyError::Overflow),
        }
    }

    /// The difference of two amounts of the same currency; it may be negative.
    pub fn checked_sub(self, other: Money) -> (r: Result<Money, MoneyError>)
        ensures
            self.currency != other.currency ==> r == Err::<Money, MoneyError>(
                MoneyError::CurrencyMismatch,
            ),
            self.currency == other.currency && (self.cents - other.cents < i64::MIN
                || self.cents - other.cents > i64::MAX) ==> r == Err::<Money, MoneyError>(
                MoneyError::Overflow,
            ),
            self.currency == other.currency && i64::MIN <= self.cents - other.cents <= i64::MAX
                ==> r == Ok::<Money, MoneyError>(
                Money { cents: (self.cents - other.cents) as i64, currency: self.currency },
            ),
    {
        if self.currency != other.currency {
            return Err(MoneyError::CurrencyMismatch);
        }
        match self.cents.checked_sub(other.cents) {
            Some(c) => Ok(Money { cents: c, currency: self.currency }),
            None => Err(MoneyError::Overflow),
        }
    }
}

} // verus!
