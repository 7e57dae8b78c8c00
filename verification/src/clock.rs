//! Monotonic time as the components see it: a count of nanoseconds since an
//! origin that the caller picks once and keeps.

use vstd::prelude::*;

verus! {

/// A point in monotonic time, in nanoseconds since the caller's origin.
pub type Nanos = u64;

/// Time that passed between `earlier` and `now`, zero where `earlier` lies
/// after `now`.
pub open spec fn elapsed_since(now: Nanos, earlier: Nanos) -> nat {
    if now >= earlier {
        (now - earlier) as nat
    } else {
        0
    }
}

/// Computes [`elapsed_since`].
pub fn elapsed(now: Nanos, earlier: Nanos) -> (age: u64)
    ensures
        age as nat == elapsed_since(now, earlier),
{
    if now >= earlier {
        now - earlier
    } else {
        0
    }
}

} // verus!
