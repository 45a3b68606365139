//! The iteration scheduler's per-tick decision: how long to sleep before
//! the next iteration, and whether the run fell behind.

use vstd::prelude::*;

verus! {

/// Given the target iteration length and the time the last iteration
/// actually took, in milliseconds: how long to sleep, and whether this is
/// an overrun (processing took longer than the target — advisory, the run
/// proceeds immediately with no sleep).
pub fn schedule_wait(target_ms: u64, elapsed_ms: u64) -> (r: (u64, bool))
    ensures
        elapsed_ms < target_ms ==> r.0 == target_ms - elapsed_ms && r.1 == false,
        elapsed_ms >= target_ms ==> r.0 == 0 && r.1 == true,
{
    if elapsed_ms < target_ms {
        (target_ms - elapsed_ms, false)
    } else {
        (0, true)
    }
}

} // verus!
