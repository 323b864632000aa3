//! The wall clock, read through an outside crate.

use vstd::prelude::*;

verus! {

/// Relies on `chrono::Local::now` and `DateTime::timestamp_millis`: the
/// current wall-clock time, as milliseconds since the Unix epoch. Nothing is
/// assumed of the reading; every caller must hold for every value.
#[verifier::external_body]
pub(crate) fn now_millis() -> i64 {
    chrono::Local::now().timestamp_millis()
}

} // verus!
