//! The wall clock.

use vstd::prelude::*;

verus! {

/// `chrono::Utc::now().timestamp()`: the current time in whole seconds
/// since the Unix epoch. Nothing is promised of its value.
#[verifier::external_body]
pub(crate) fn unix_now() -> (t: i64) {
    chrono::Utc::now().timestamp()
}

} // verus!
