//! The wall clock, as the text that the state file records.

use vstd::prelude::*;

verus! {

/// Reads the clock with `chrono::Utc::now` and prints the instant with
/// `DateTime::to_rfc3339`. Nothing is promised of the text: it differs from
/// call to call.
#[verifier::external_body]
pub(crate) fn utc_timestamp() -> String {
    chrono::Utc::now().to_rfc3339()
}

} // verus!
