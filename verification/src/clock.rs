//! The time of the machine.

use vstd::prelude::*;
use std::time::SystemTime;
use std::time::UNIX_EPOCH;

verus! {

/// `SystemTime::now`, as whole seconds since the start of 1970; `None` where
/// the clock stands before that. Nothing is claimed of the number.
#[verifier::external_body]
pub(crate) fn unix_now() -> (r: Option<u64>) {
    SystemTime::now().duration_since(UNIX_EPOCH).ok().map(|since| since.as_secs())
}

} // verus!
