//! The clock: the time at which a user is created.

use vstd::prelude::*;

verus! {

/// The date and time type of `chrono`, opaque to the verifier.
#[verifier::external_type_specification]
#[verifier::external_body]
pub struct ExNaiveDateTime(chrono::NaiveDateTime);

/// `Utc::now` of `chrono`, as a date and time without a zone: the time at
/// which it is called. Nothing is known of it.
#[verifier::external_body]
pub(crate) fn current_time() -> chrono::NaiveDateTime {
    chrono::Utc::now().naive_utc()
}

} // verus!
