//! Random pauses between actions.

use vstd::prelude::*;

verus! {

/// The bounds of a pause in order: the smaller first.
pub open spec fn ordered(a: u64, b: u64) -> (u64, u64) {
    if a <= b {
        (a, b)
    } else {
        (b, a)
    }
}

/// How long to pause, in milliseconds, for a pause between `min_ms` and `max_ms` (either order)
/// given a clock reading in nanoseconds: the lower bound when both bounds agree, else the lower
/// bound plus the reading modulo the width of the range. The pause always lies in the range.
pub fn random_wait_ms(min_ms: u64, max_ms: u64, now_nanos: u64) -> (r: u64)
    requires
        ordered(min_ms, max_ms).1 - ordered(min_ms, max_ms).0 < u64::MAX,
    ensures
        ({
            let (lo, hi) = ordered(min_ms, max_ms);
            &&& lo <= r <= hi
            &&& lo == hi ==> r == lo
            &&& lo < hi ==> r == lo + now_nanos % ((hi - lo + 1) as u64)
        }),
{
    let (lo, hi) = if min_ms <= max_ms {
        (min_ms, max_ms)
    } else {
        (max_ms, min_ms)
    };
    if lo == hi {
        return lo;
    }
    let span = hi - lo + 1;
    let offset = now_nanos % span;
    assert(offset < span);
    lo + offset
}

} // verus!
