//! The one place the crate asks for the current date, used to place a
//! resumed session's rollout file at its conventional path.

use vstd::prelude::*;
use chrono::Datelike;

verus! {

/// Relies on chrono's Utc::now and the Datelike accessors year, month and
/// day: month is in 1..=12 and day in 1..=31. Nothing else can be promised
/// of the clock's reading.
#[verifier::external_body]
pub(crate) fn today_utc() -> (r: (i32, u32, u32))
    ensures
        1 <= r.1 <= 12,
        1 <= r.2 <= 31,
{
    let now = chrono::Utc::now();
    (now.year(), now.month(), now.day())
}

} // verus!
