//! The wall clock, read in whole seconds.

use chrono::Utc;
use vstd::prelude::*;

verus! {

/// No reading of the clock reaches this bound.
pub const CLOCK_LIMIT: i64 = 0x1_0000_0000_0000;

/// `chrono::Utc::now().timestamp()`: the seconds that have passed since the
/// Unix epoch. chrono gives no reading at all for a system clock set before
/// the epoch, so a reading is never negative; and it computes the reading
/// from a day number of 32 bits and the seconds within that day, so a reading
/// stays below 2^48. Nothing else is known of it, and two readings may differ.
#[verifier::external_body]
pub(crate) fn now_timestamp() -> (now: i64)
    ensures
        0 <= now < CLOCK_LIMIT,
{
    Utc::now().timestamp()
}

} // verus!
