//! The countdown that every generator keeps: it is read, restarted when it had
//! run out, and only then lowered.

use vstd::prelude::*;

verus! {

/// What a tick lowers: the countdown itself, or `fresh` if the countdown
/// stood at zero.
pub open spec fn restarted(distance: int, fresh: int) -> int {
    if distance == 0 {
        fresh
    } else {
        distance
    }
}

/// A countdown after one tick: restarted from `fresh` if it stood at zero,
/// then lowered by one.
pub open spec fn countdown(distance: int, fresh: int) -> int {
    restarted(distance, fresh) - 1
}

/// A tick never lowers a countdown below zero. For a countdown that stands
/// between zero and `end - 2` and restarts from a distance of `1..end`, what
/// the tick lowers is at least one, and what it leaves stands between zero
/// and `end - 2` again.
pub proof fn lemma_countdown_stays_in_range(distance: int, fresh: int, end: int)
    requires
        0 <= distance < end - 1,
        1 <= fresh < end,
    ensures
        restarted(distance, fresh) >= 1,
        0 <= countdown(distance, fresh) < end - 1,
{
}

} // verus!
