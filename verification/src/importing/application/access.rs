//! The check that every import command starts with, and the range of dates
//! that a batch of rows covers.
use crate::importing::domain::raw_transaction::RawTransaction;
use crate::ledger::account::Account;
use crate::shared::date::{date_le, day_number, lemma_date_order_day_number, Date, Period};
use crate::shared::errors::ImportError;
use crate::shared::ids::{AccountID, Principal};
use crate::shared::text::{push_uuid, uuid_text};
use vstd::prelude::*;

verus! {

/// Error message for an import into an account that does not exist.
pub open spec fn account_not_found_message(account: u128) -> Seq<char> {
    "account not found: "@ + uuid_text(account)
}

/// Checks that the account looked up under `account_id` (`found`) exists
/// and belongs to the principal.
///
/// Answers [`ImportError::NotFound`] when there is no such account and
/// [`ImportError::Forbidden`] when it belongs to someone else.
pub fn check_account(found: Option<Account>, account_id: AccountID, principal: Principal) -> (r: Result<(), ImportError>)
    ensures
        found is None ==> (r matches Err(ImportError::NotFound(m)) && m@ == account_not_found_message(
            account_id.0,
        )),
        found matches Some(a) ==> (a.owner_id != principal.user_id ==> (r matches Err(
            ImportError::Forbidden(m),
        ) && m@ == "not the owner of this account"@)),
        r is Ok <==> (found matches Some(a) && a.owner_id == principal.user_id),
{
    let account = match found {
        Some(a) => a,
        None => {
            let mut m = String::from_str("account not found: ");
            push_uuid(&mut m, account_id.0);
            return Err(ImportError::NotFound(m));
        },
    };
    if account.owner_id != principal.user_id {
        return Err(ImportError::Forbidden(String::from_str("not the owner of this account")));
    }
    Ok(())
}

/// `d` is the earliest date of the rows.
pub open spec fn is_earliest(d: Date, rows: Seq<RawTransaction>) -> bool {
    &&& exists|i: int| 0 <= i < rows.len() && rows[i].date == d
    &&& forall|i: int| 0 <= i < rows.len() ==> date_le(d, #[trigger] rows[i].date)
}

/// `d` is the latest date of the rows.
pub open spec fn is_latest(d: Date, rows: Seq<RawTransaction>) -> bool {
    &&& exists|i: int| 0 <= i < rows.len() && rows[i].date == d
    &&& forall|i: int| 0 <= i < rows.len() ==> date_le(#[trigger] rows[i].date, d)
}

/// The period from the earliest to the latest date of the rows; `None`
/// when there are no rows.
pub fn covered_period(rows: &Vec<RawTransaction>) -> (r: Option<Period>)
    ensures
        r is None <==> rows@.len() == 0,
        r matches Some(p) ==> is_earliest(p.start, rows@) && is_latest(p.end, rows@),
        r matches Some(p) ==> (exists|i: int| 0 <= i < rows@.len() && (#[trigger] rows@[i]).date == p.start)
            && (exists|i: int| 0 <= i < rows@.len() && (#[trigger] rows@[i]).date == p.end),
        r matches Some(p) ==> (forall|i: int| 0 <= i < rows@.len() ==> (#[trigger] rows@[i]).date.valid())
            ==> forall|i: int|
            0 <= i < rows@.len() ==> day_number(p.start) <= day_number(#[trigger] rows@[i].date)
                <= day_number(p.end),
{
    if rows.len() == 0 {
        return None;
    }
    let mut lo = rows[0].date;
    let mut hi = rows[0].date;
    let mut i: usize = 1;
    while i < rows.len()
        invariant
            1 <= i <= rows@.len(),
            exists|k: int| 0 <= k < i && rows@[k].date == lo,
            exists|k: int| 0 <= k < i && rows@[k].date == hi,
            forall|k: int| 0 <= k < i ==> date_le(lo, #[trigger] rows@[k].date),
            forall|k: int| 0 <= k < i ==> date_le(#[trigger] rows@[k].date, hi),
        decreases rows@.len() - i,
    {
        let d = rows[i].date;
        if d.is_before(&lo) {
            lo = d;
        }
        if hi.is_before(&d) {
            hi = d;
        }
        i = i + 1;
    }
    let r = Period::new(lo, hi);
    proof {
        if forall|i: int| 0 <= i < rows@.len() ==> (#[trigger] rows@[i]).date.valid() {
            let k1 = choose|k: int| 0 <= k < rows@.len() && rows@[k].date == lo;
            let k2 = choose|k: int| 0 <= k < rows@.len() && rows@[k].date == hi;
            assert(rows@[k1].date.valid() && rows@[k2].date.valid());
            assert forall|i: int| 0 <= i < rows@.len() implies day_number(lo) <= day_number(
                #[trigger] rows@[i].date,
            ) <= day_number(hi) by {
                lemma_date_order_day_number(lo, rows@[i].date);
                lemma_date_order_day_number(rows@[i].date, hi);
            }
        }
    }
    Some(r)
}

} // verus!
