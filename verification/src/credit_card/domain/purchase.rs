//! Purchases made with a credit card.
use crate::shared::clock::{now_millis, Timestamp};
use crate::shared::date::Date;
use crate::shared::ids::{CategoryID, InstallmentGroupID, PurchaseID};
use crate::shared::money::{div_toward_zero, Money};
use vstd::prelude::*;

verus! {

/// A purchase, or one installment of a purchase split over several
/// invoices. For an installment, `total_amount` is the installment's share
/// and `installment_group_id` links the installments of one purchase.
#[derive(Debug, Clone)]
pub struct Purchase {
    pub id: PurchaseID,
    pub description: String,
    pub total_amount: Money,
    pub installments_count: u32,
    pub installment_number: u32,
    pub installment_group_id: Option<InstallmentGroupID>,
    pub category_id: CategoryID,
    pub purchased_at: Date,
    pub created_at: Timestamp,
}

impl Purchase {
    /// A purchase registered as a whole: installment 1 of
    /// `installments_count`, in no installment group.
    pub fn new(
        id: PurchaseID,
        description: String,
        total_amount: Money,
        installments_count: u32,
        category_id: CategoryID,
        purchased_at: Date,
    ) -> (r: Purchase)
        ensures
            r.id == id,
            r.description == description,
            r.total_amount == total_amount,
            r.installments_count == installments_count,
            r.installment_number == 1,
            r.installment_group_id is None,
            r.category_id == category_id,
            r.purchased_at == purchased_at,
    {
        Purchase {
            id,
            description,
            total_amount,
            installments_count,
            installment_number: 1,
            installment_group_id: None,
            category_id,
            purchased_at,
            created_at: now_millis(),
        }
    }

    /// Installment `installment_number` of `installments_count` of a
    /// purchase, worth `amount` and linked to the others by `group_id`.
    pub fn new_installment(
        id: PurchaseID,
        description: String,
        amount: Money,
        installments_count: u32,
        installment_number: u32,
        group_id: InstallmentGroupID,
        category_id: CategoryID,
        purchased_at: Date,
    ) -> (r: Purchase)
        ensures
            r.id == id,
            r.description == description,
            r.total_amount == amount,
            r.installments_count == installments_count,
            r.installment_number == installment_number,
            r.installment_group_id == Some(group_id),
            r.category_id == category_id,
            r.purchased_at == purchased_at,
    {
        Purchase {
            id,
            description,
            total_amount: amount,
            installments_count,
            installment_number,
            installment_group_id: Some(group_id),
            category_id,
            purchased_at,
            created_at: now_millis(),
        }
    }

    /// The total divided evenly over the installments, rounded toward zero.
    pub fn installment_amount(&self) -> (r: Money)
        requires
            self.installments_count > 0,
        ensures
            r.currency == self.total_amount.currency,
            r.cents == div_toward_zero(self.total_amount.cents as int, self.installments_count as int),
    {
        let n: i64 = self.installments_count as i64;
        let per_installment = self.total_amount.cents / n;
        Money { cents: per_installment, currency: self.total_amount.currency }
    }
}

} // verus!
