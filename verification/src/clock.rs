//! The one place the library asks the machine for the current date.

use chrono::Datelike;
use vstd::prelude::*;

verus! {

use crate::date::Date;

/// Relies on chrono: `Utc::now` returns the current UTC time, and the
/// `Datelike` accessors `month` and `day` are documented to range over
/// 1..=12 and 1..=31 for every date. Nothing more is assumed of the
/// clock: callers take the date as a value and work for every value.
#[verifier::external_body]
pub(crate) fn today() -> (d: Date)
    ensures
        d.wf(),
{
    let now = chrono::Utc::now();
    Date { year: now.year(), month: now.month(), day: now.day() }
}

} // verus!
