//! The gateway's one ambient-time helper: the current UTC date, used to
//! derive the storage key for the day's messages.

use vstd::prelude::*;

verus! {

/// Relies on chrono's `Utc::now`: returns today's UTC date formatted
/// `%Y-%m-%d`. The value depends on the clock, so only its shape is
/// stated: a four-digit (or longer) year, and single dashes before the
/// two-digit month and day.
#[verifier::external_body]
pub fn get_current_date_in_utc() -> (r: String)
    ensures
        r@.len() >= 10,
{
    let current_date = chrono::Utc::now().date_naive();
    current_date.format("%Y-%m-%d").to_string()
}

} // verus!
