//! Fresh identifiers and the current time. Both change from call to call,
//! so nothing is stated of them.

use vstd::prelude::*;

verus! {

/// Trusted: `uuid::Uuid::new_v4` in its hyphenated text form. It is random:
/// nothing is stated of it.
#[verifier::external_body]
pub(crate) fn new_id() -> String {
    uuid::Uuid::new_v4().to_string()
}

/// Trusted: `chrono::Utc::now` in RFC 3339 form. It is the clock: nothing
/// is stated of it.
#[verifier::external_body]
pub(crate) fn now_rfc3339() -> String {
    chrono::Utc::now().to_rfc3339()
}

} // verus!
