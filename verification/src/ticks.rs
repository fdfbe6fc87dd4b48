//! Ticks, the server's unit of time within a day: one tick is 1/300 second.

use vstd::prelude::*;

verus! {

/// The whole number of milliseconds nearest to `ticks` ticks, that is to
/// `ticks * 10 / 3`.
pub open spec fn tick_millis(ticks: int) -> int {
    (ticks * 10 + 1) / 3
}

/// `tick_millis(ticks)` is the one integer that lies within a third of a
/// millisecond of `ticks * 10 / 3`: no other integer is as near.
pub proof fn lemma_tick_millis_is_nearest(ticks: int, millis: int)
    ensures
        -1 <= 3 * tick_millis(ticks) - 10 * ticks <= 1,
        -1 <= 3 * millis - 10 * ticks <= 1 ==> millis == tick_millis(ticks),
{
}

/// Three hundred ticks are one second, so whole seconds convert exactly.
pub proof fn lemma_tick_millis_of_seconds(seconds: int)
    ensures
        tick_millis(300 * seconds) == 1000 * seconds,
{
}

/// Converts a tick count to milliseconds, rounded to the nearest millisecond
/// in integer arithmetic.
pub fn ticks_to_ms(ticks: u32) -> (millis: i64)
    ensures
        millis == tick_millis(ticks as int),
        -1 <= 3 * millis - 10 * ticks <= 1,
        0 <= millis <= 14_316_557_650,
{
    let scaled: i64 = ticks as i64 * 10 + 1;
    scaled / 3
}

} // verus!
