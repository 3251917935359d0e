//! The time of day, for the timestamps of new documents.

use vstd::prelude::*;

verus! {

/// Trusted: `chrono::Utc::now`, written out by `DateTime::to_rfc3339`.
/// Nothing is claimed of the text, which differs from call to call. The
/// call does not return where the system clock stands before 1970.
#[verifier::external_body]
pub(crate) fn current_timestamp() -> String {
    chrono::Utc::now().to_rfc3339()
}

} // verus!
