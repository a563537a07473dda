//! The wall clock, read once per ledger append to stamp `created_at`.

use vstd::prelude::*;

verus! {

/// Relies on `chrono::Utc::now` and `DateTime::timestamp_millis`: the current
/// wall-clock time as milliseconds since the Unix epoch. Nothing is promised
/// of the value; the ledger treats timestamps as opaque.
#[verifier::external_body]
pub(crate) fn now_millis() -> i64 {
    chrono::Utc::now().timestamp_millis()
}

} // verus!
