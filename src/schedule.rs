//! Timing of the fixed-period control loop.
use vstd::prelude::*;

verus! {

/// Time left to sleep in a tick of `period_ms` of which `elapsed_ms` have
/// been spent; none when the tick already overran.
pub fn remaining_sleep_ms(period_ms: u64, elapsed_ms: u64) -> (r: u64)
    ensures
        elapsed_ms < period_ms ==> r == period_ms - elapsed_ms,
        elapsed_ms >= period_ms ==> r == 0,
{
    if elapsed_ms < period_ms {
        period_ms - elapsed_ms
    } else {
        0
    }
}

} // verus!
