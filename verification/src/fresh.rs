//! Fresh identifiers and readings of the clock. Both depend on chance or on
//! the time of the call, so nothing is stated of what they return: the
//! functions that use them say what holds whatever came back.

use vstd::prelude::*;

verus! {

/// `uuid::Uuid::new_v4`, written out with its `Display` form. The value is
/// random, so nothing is stated of it.
#[verifier::external_body]
pub(crate) fn new_uuid() -> (r: String) {
    uuid::Uuid::new_v4().to_string()
}

/// `chrono::Utc::now`, written out with `to_rfc3339`. The value is the time
/// of the call, so nothing is stated of it.
#[verifier::external_body]
pub(crate) fn now_rfc3339() -> (r: String) {
    chrono::Utc::now().to_rfc3339()
}

/// `chrono::Utc::now`, read both as milliseconds since the Unix epoch
/// (`timestamp_millis`) and written out with `to_rfc3339`. It is the time of
/// the call, so nothing is stated of it.
#[verifier::external_body]
pub(crate) fn now_stamp() -> (r: (i64, String)) {
    let now = chrono::Utc::now();
    (now.timestamp_millis(), now.to_rfc3339())
}

} // verus!
