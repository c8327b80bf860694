//! Freshly generated identifiers and timestamps stamped onto assembled
//! summaries.

use vstd::prelude::*;

verus! {

/// Relies on uuid::Uuid::new_v4 and Uuid's hyphenated display form: a fresh
/// identifier renders as 36 characters, whichever value was drawn.
#[verifier::external_body]
pub(crate) fn fresh_id() -> (r: String)
    ensures
        r@.len() == 36,
{
    uuid::Uuid::new_v4().to_string()
}

/// Relies on chrono::Utc::now and chrono::DateTime::to_rfc3339: the moment
/// of the call rendered as an RFC 3339 timestamp. Nothing is claimed of the
/// value, which depends on the clock.
#[verifier::external_body]
pub(crate) fn now_rfc3339() -> String {
    chrono::Utc::now().to_rfc3339()
}

} // verus!
