//! Timestamps taken from the system clock. The values depend on the moment
//! of the call, so nothing is promised about their content.

use vstd::prelude::*;

verus! {

/// Relies on chrono::Utc::now: a textual timestamp of the current instant.
/// The result depends on the clock, so no contract is stated.
#[verifier::external_body]
pub(crate) fn utc_now_string() -> String {
    chrono::Utc::now().to_string()
}

/// Relies on chrono::Utc::now: the current UTC date, formatted as
/// year-month-day. The result depends on the clock, so no contract is stated.
#[verifier::external_body]
pub(crate) fn utc_today_string() -> String {
    chrono::Utc::now().naive_utc().format("%Y-%m-%d").to_string()
}

} // verus!
