//! Time, as the caller's clock tells it.
//!
//! Nothing in this crate reads a clock: every decision that waits on one takes the moment as
//! an argument. A moment is a count of nanoseconds since an origin of the caller's choosing -
//! one origin for everything handed to one state machine - and a length of time is a count of
//! nanoseconds too.

use vstd::prelude::*;

verus! {

/// How long it has been from `since` to `now`, and no time at all for a `since` that is later
/// than `now`: a clock read on two threads can land either way round, and a wait that has not
/// started has not run.
pub open spec fn elapsed(now: u64, since: u64) -> u64 {
    if now >= since {
        (now - since) as u64
    } else {
        0
    }
}

/// How long it has been from `since` to `now`, as [`elapsed`] says.
pub fn elapsed_since(now: u64, since: u64) -> (took: u64)
    ensures
        took == elapsed(now, since),
{
    if now >= since {
        now - since
    } else {
        0
    }
}

} // verus!
