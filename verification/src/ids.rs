//! Fresh identifiers and the current time, for records the pipeline and
//! the workspace create.

use vstd::prelude::*;

verus! {

/// A fresh random identifier: `uuid::Uuid::new_v4()` in its hyphenated
/// text form.
///
/// The value is random, so the contract claims nothing about it.
#[verifier::external_body]
pub(crate) fn new_id() -> (res: String) {
    uuid::Uuid::new_v4().to_string()
}

/// The current UTC time as RFC 3339 text: `chrono::Utc::now().to_rfc3339()`.
///
/// The value depends on the clock, so the contract claims nothing about it.
#[verifier::external_body]
pub(crate) fn now_rfc3339() -> (res: String) {
    chrono::Utc::now().to_rfc3339()
}

} // verus!
