//! The bill aggregate.
use crate::shared::clock::{now_millis, Timestamp};
use crate::shared::date::{
    day_number, days_before_month, days_before_year, days_in_month, lemma_day_number_bounds,
    max_day_number, month_length, ymd_valid, Date, MAX_YEAR,
};
use crate::shared::errors::BillsError;
use crate::shared::ids::{BillID, CategoryID, UserID};
use crate::shared::money::Money;
use vstd::prelude::*;

verus! {

/// Status of a bill in its lifecycle.
#[derive(Debug, Clone, Copy, PartialEq, Eq, Structural, Hash)]
pub enum BillStatus {
    /// Bill is awaiting payment.
    Pending,
    /// Bill has been paid.
    Paid,
    /// Bill was not paid by its due date.
    Overdue,
}

/// Recurrence pattern for a repeating bill.
#[derive(Debug, Clone, Copy, PartialEq, Eq, Structural, Hash)]
pub enum RecurrenceRule {
    /// Repeats every month.
    Monthly,
    /// Repeats every week.
    Weekly,
    /// Repeats every year.
    Yearly,
}

/// A scheduled financial obligation (recurring or one-time).
#[derive(Debug, Clone)]
pub struct Bill {
    pub id: BillID,
    pub owner_id: UserID,
    pub name: String,
    pub amount: Option<Money>,
    pub due_date: Date,
    pub recurrence: Option<RecurrenceRule>,
    pub category_id: CategoryID,
    pub status: BillStatus,
    pub created_at: Timestamp,
}

/// The smaller of a day of the month and the length of a month.
pub open spec fn clamp_day(day: int, len: int) -> int {
    if day <= len {
        day
    } else {
        len
    }
}

/// The same day of the month one month later, or the last day of that month
/// when it is shorter (January 31 is followed by the last day of February);
/// `None` only past the last supported year.
pub open spec fn month_later(d: Date) -> Option<Date> {
    let y = if d.month == 12 {
        d.year + 1
    } else {
        d.year as int
    };
    let m = if d.month == 12 {
        1
    } else {
        d.month + 1
    };
    let day = clamp_day(d.day as int, days_in_month(y, m));
    if ymd_valid(y, m, day) {
        Some(Date { year: y as i32, month: m as u32, day: day as u32 })
    } else {
        None
    }
}

/// The same day one year later, or February 28 for a February 29 whose next
/// year is common; `None` only past the last supported year.
pub open spec fn year_later(d: Date) -> Option<Date> {
    let day = clamp_day(d.day as int, days_in_month(d.year + 1, d.month as int));
    if ymd_valid(d.year + 1, d.month as int, day) {
        Some(Date { year: (d.year + 1) as i32, month: d.month, day: day as u32 })
    } else {
        None
    }
}

/// A bill leaves `Pending` once, for `Paid` or for `Overdue`, and stays
/// there: a bill marked paid or overdue is no longer pending, so neither
/// mark is accepted again, and marking changes nothing but the status.
pub proof fn lemma_bill_status_final(b: Bill, s: BillStatus)
    requires
        s == BillStatus::Paid || s == BillStatus::Overdue,
    ensures
        b.with_status(s).status != BillStatus::Pending,
        b.with_status(s).with_status(s) == b.with_status(s),
        b.with_status(s).id == b.id && b.with_status(s).amount == b.amount
            && b.with_status(s).due_date == b.due_date && b.with_status(s).recurrence
            == b.recurrence,
{
}

impl Bill {
    /// The bill with its status replaced by `status` and nothing else changed.
    pub open spec fn with_status(self, status: BillStatus) -> Bill {
        Bill { status, ..self }
    }

    /// Creates a new bill with [`BillStatus::Pending`], stamped with the
    /// current time.
    pub fn new(
        id: BillID,
        owner_id: UserID,
        name: String,
        amount: Option<Money>,
        due_date: Date,
        recurrence: Option<RecurrenceRule>,
        category_id: CategoryID,
    ) -> (r: Bill)
        ensures
            r.id == id,
            r.owner_id == owner_id,
            r.name == name,
            r.amount == amount,
            r.due_date == due_date,
            r.recurrence == recurrence,
            r.category_id == category_id,
            r.status == BillStatus::Pending,
    {
        Bill {
            id,
            owner_id,
            name,
            amount,
            due_date,
            recurrence,
            category_id,
            status: BillStatus::Pending,
            created_at: now_millis(),
        }
    }

    /// Marks the bill as paid.
    ///
    /// Only a pending bill can be paid; any other bill is left unchanged and
    /// the answer is [`BillsError::InvariantViolation`].
    pub fn mark_paid(&mut self) -> (r: Result<(), BillsError>)
        ensures
            old(self).status == BillStatus::Pending <==> r is Ok,
            r is Ok ==> *final(self) == old(self).with_status(BillStatus::Paid),
            r is Err ==> *final(self) == *old(self),
            r is Err ==> (r matches Err(BillsError::InvariantViolation(m)) && m@
                == "only pending bills can be marked as paid"@),
    {
        if self.status != BillStatus::Pending {
            return Err(
                BillsError::InvariantViolation(
                    String::from_str("only pending bills can be marked as paid"),
                ),
            );
        }
        self.status = BillStatus::Paid;
        Ok(())
    }

    /// Marks the bill as overdue.
    ///
    /// Only a pending bill can become overdue; any other bill is left
    /// unchanged and the answer is [`BillsError::InvariantViolation`].
    pub fn mark_overdue(&mut self) -> (r: Result<(), BillsError>)
        ensures
            old(self).status == BillStatus::Pending <==> r is Ok,
            r is Ok ==> *final(self) == old(self).with_status(BillStatus::Overdue),
            r is Err ==> *final(self) == *old(self),
            r is Err ==> (r matches Err(BillsError::InvariantViolation(m)) && m@
                == "only pending bills can be marked as overdue"@),
    {
        if self.status != BillStatus::Pending {
            return Err(
                BillsError::InvariantViolation(
                    String::from_str("only pending bills can be marked as overdue"),
                ),
            );
        }
        self.status = BillStatus::Overdue;
        Ok(())
    }

    /// The due date of the next occurrence of a recurring bill: one week,
    /// one month or one year later; a day that the next month (or the same
    /// month of the next year) lacks becomes that month's last day.
    ///
    /// `None` for a one-time bill, and for a recurring one only when the
    /// next date would lie beyond the supported range.
    pub fn next_due_date(&self) -> (r: Option<Date>)
        requires
            self.due_date.valid(),
        ensures
            self.recurrence is None ==> r is None,
            r matches Some(x) ==> x.valid(),
            self.recurrence == Some(RecurrenceRule::Monthly) ==> r == month_later(self.due_date),
            self.recurrence == Some(RecurrenceRule::Yearly) ==> r == year_later(self.due_date),
            self.recurrence == Some(RecurrenceRule::Weekly) ==> {
                &&& (r is Some <==> day_number(self.due_date) + 7 <= max_day_number())
                &&& (r matches Some(x) ==> x.valid() && day_number(x) == day_number(self.due_date)
                    + 7)
            },
            self.recurrence is Some && self.due_date.year < MAX_YEAR ==> r is Some,
    {
        proof {
            lemma_day_number_bounds(self.due_date);
        }
        match self.recurrence {
            None => None,
            Some(RecurrenceRule::Monthly) => {
                let (y, m) = if self.due_date.month == 12 {
                    if self.due_date.year >= MAX_YEAR {
                        return None;
                    }
                    (self.due_date.year + 1, 1u32)
                } else {
                    (self.due_date.year, self.due_date.month + 1)
                };
                let len = month_length(y, m);
                let day = if self.due_date.day <= len {
                    self.due_date.day
                } else {
                    len
                };
                Date::from_ymd_opt(y, m, day)
            },
            Some(RecurrenceRule::Weekly) => {
                proof {
                    if self.due_date.year < MAX_YEAR {
                        lemma_day_number_step(self.due_date);
                    }
                }
                self.due_date.checked_add_days(7)
            },
            Some(RecurrenceRule::Yearly) => {
                if self.due_date.year >= MAX_YEAR {
                    return None;
                }
                let y = self.due_date.year + 1;
                let len = month_length(y, self.due_date.month);
                let day = if self.due_date.day <= len {
                    self.due_date.day
                } else {
                    len
                };
                Date::from_ymd_opt(y, self.due_date.month, day)
            },
        }
    }
}

/// A date before the last supported year is more than a week before the
/// last supported day.
proof fn lemma_day_number_step(d: Date)
    requires
        d.valid(),
        d.year < MAX_YEAR,
    ensures
        day_number(d) + 7 <= max_day_number(),
{
    let y = d.year as int;
    assert(days_before_month(y, d.month as int) + d.day <= days_before_month(y, 12) + 31);
    assert(days_before_year(y) + 365 <= days_before_year(y + 1));
    assert(days_before_year(y + 1) <= days_before_year(MAX_YEAR as int));
    assert(days_before_month(MAX_YEAR as int, 12) >= 334);
}

} // verus!
