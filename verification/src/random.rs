//! The one place where the library asks for randomness.

use rand::Rng;
use vstd::prelude::*;

verus! {

/// Draws a number from the half-open range `low..high`.
///
/// Trusted, not proved. The body is `rand::thread_rng().gen_range(low..high)`:
/// it asks the thread's generator, which `rand` seeds from the operating
/// system, for one number. The contract claims what `Rng::gen_range`
/// documents of an integer range, that the number lies in it, and nothing
/// else: two calls with the same bounds may return different numbers.
/// `gen_range` panics on an empty range, which the precondition rules out.
#[verifier::external_body]
pub(crate) fn draw_between(low: u16, high: u16) -> (drawn: u16)
    requires
        low < high,
    ensures
        low <= drawn < high,
{
    rand::thread_rng().gen_range(low..high)
}

/// The draw that a generator whose countdown stands at `distance` works with:
/// taken from `low..high` when the countdown has run out, and `low` otherwise,
/// when the generator does not read it.
pub(crate) fn draw_when_spent(distance: u16, low: u16, high: u16) -> (fresh: u16)
    requires
        low < high,
    ensures
        low <= fresh < high,
{
    if distance == 0 {
        draw_between(low, high)
    } else {
        low
    }
}

} // verus!
