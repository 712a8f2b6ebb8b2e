//! The current time, today's date and fresh random identifiers, read from
//! the system. Nothing is promised of their values beyond their type.
use crate::shared::date::Date;
use chrono::Datelike;
use vstd::prelude::*;

verus! {

/// Milliseconds since the Unix epoch.
pub type Timestamp = i64;

/// `chrono::Utc::now`, as milliseconds since the Unix epoch. The value
/// depends on the clock, so nothing is stated of it.
#[verifier::external_body]
pub(crate) fn now_millis() -> Timestamp {
    chrono::Utc::now().timestamp_millis()
}

/// `chrono::Utc::now` reduced to its calendar date in UTC. The date depends
/// on the clock; it is a valid date, as every `chrono::NaiveDate` is.
#[verifier::external_body]
pub(crate) fn today() -> (r: Date)
    ensures
        r.valid(),
{
    let t = chrono::Utc::now().date_naive();
    Date { year: t.year(), month: t.month(), day: t.day() }
}

/// `rand::random::<u128>`: a fresh random number, of which nothing is stated.
#[verifier::external_body]
pub(crate) fn random_u128() -> u128 {
    rand::random::<u128>()
}

} // verus!
