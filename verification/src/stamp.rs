//! Fresh identifiers and the current time, the two inputs of the library
//! that depend on chance and on the clock.
use vstd::prelude::*;

verus! {

/// `uuid::Uuid::new_v4`, read as the 128-bit value of the identifier
/// (`Uuid::as_u128`). The value is random, so nothing is claimed of it.
#[verifier::external_body]
pub(crate) fn fresh_id() -> u128 {
    uuid::Uuid::new_v4().as_u128()
}

/// `chrono::Utc::now` written by `DateTime::to_rfc3339`. The value depends
/// on the clock, so nothing is claimed of it.
#[verifier::external_body]
pub(crate) fn now_rfc3339() -> String {
    chrono::Utc::now().to_rfc3339()
}

} // verus!
