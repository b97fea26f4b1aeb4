//! What the library takes from the machine it runs on: the wall clock and fresh identifiers.

use vstd::prelude::*;

verus! {

/// Seconds since the Unix epoch, read from the system clock through
/// `chrono::Utc::now().timestamp()`. Nothing is claimed of the value:
/// two calls may return anything the clock says.
#[verifier::external_body]
pub(crate) fn unix_now() -> (now: i64) {
    chrono::Utc::now().timestamp()
}

/// A fresh random identifier, the hyphenated text of `uuid::Uuid::new_v4()`.
/// Nothing is claimed of the value.
#[verifier::external_body]
pub(crate) fn new_id() -> (id: String) {
    uuid::Uuid::new_v4().to_string()
}

} // verus!
