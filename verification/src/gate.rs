//! Plausibility gate: is a claimed timestamp within a symmetric tolerance
//! window around the current wall-clock time.  The clock is injected as a
//! plain epoch-seconds value, so the predicate is pure.
use vstd::prelude::*;

verus! {

/// Width of the plausibility window on either side of "now": ten minutes.
pub const PLAUSIBILITY_TOLERANCE_SECS: i64 = 600;

/// Check if an input timestamp occurs in range of the specified tolerance
/// from now (both ends inclusive).  All values are seconds since the Unix
/// epoch, interpreted as UTC.
pub fn in_range(claimed: i64, now: i64, tolerance: i64) -> (r: bool)
    ensures
        r == (now - tolerance <= claimed && claimed <= now + tolerance),
{
    let c: i128 = claimed as i128;
    let n: i128 = now as i128;
    let t: i128 = tolerance as i128;
    n - t <= c && c <= n + t
}

} // verus!
