//! The blinking schedule: turning a duration and a period into the exact
//! sequence of level changes that blinks an LED, for a runner that
//! performs the writes and the sleeps.

use vstd::prelude::*;

use crate::pin::Pin;

verus! {

/// One step of a blinking schedule: set the pin to `value`, then hold it
/// there for `hold_ms` milliseconds.
#[derive(Clone, Copy, Debug, PartialEq, Eq, Structural)]
pub struct BlinkStep {
    pub value: u8,
    pub hold_ms: i64,
}

/// A blinking schedule: export the pin, configure it as an output, then
/// run the steps in order.
pub struct BlinkPlan {
    pub pin: Pin,
    pub steps: Vec<BlinkStep>,
}

/// How many low-high rounds fit into `duration_ms` at `period_ms` per
/// held level: the duration over the period, halved, with remainders
/// dropped; no rounds when the signs disagree or the duration is spent.
pub open spec fn blink_iterations(duration_ms: int, period_ms: int) -> int {
    if duration_ms > 0 && period_ms > 0 {
        duration_ms / period_ms / 2
    } else if duration_ms < 0 && period_ms < 0 {
        (-duration_ms) / (-period_ms) / 2
    } else {
        0
    }
}

/// The magnitude of a negative number.
fn magnitude_u64(x: i64) -> (r: u64)
    requires
        x < 0,
    ensures
        r == -(x as int),
{
    ((-(x + 1)) as u64) + 1
}

/// The schedule that blinks the LED on pin `led` for `duration_ms`
/// milliseconds, holding each level for `period_ms`: the pin alternates
/// low and high, starting low, one step per held level, as many whole
/// low-high rounds as fit.
///
/// A zero period has no rounds to offer and is rejected by the
/// precondition; the one remaining division overflow is ruled out there
/// too.
pub fn blink_my_led(led: u64, duration_ms: i64, period_ms: i64) -> (plan: BlinkPlan)
    requires
        period_ms != 0,
        !(duration_ms == i64::MIN && period_ms == -1),
    ensures
        plan.pin.number() == led,
        plan.steps@.len() == 2 * blink_iterations(duration_ms as int, period_ms as int),
        forall|i: int|
            0 <= i < plan.steps@.len() ==> (#[trigger] plan.steps@[i]).hold_ms == period_ms
                && plan.steps@[i].value == (if i % 2 == 0 {
                0u8
            } else {
                1u8
            }),
{
    let iters: u64 = if duration_ms > 0 && period_ms > 0 {
        ((duration_ms as u64) / (period_ms as u64)) / 2
    } else if duration_ms < 0 && period_ms < 0 {
        (magnitude_u64(duration_ms) / magnitude_u64(period_ms)) / 2
    } else {
        0
    };
    proof {
        assert(iters == blink_iterations(duration_ms as int, period_ms as int));
        assert(iters <= u64::MAX / 2);
    }
    let total: u64 = 2 * iters;
    let mut steps: Vec<BlinkStep> = Vec::new();
    let mut k: u64 = 0;
    while k < total
        invariant
            k <= total,
            total == 2 * blink_iterations(duration_ms as int, period_ms as int),
            steps@.len() == k,
            forall|i: int|
                0 <= i < k ==> (#[trigger] steps@[i]).hold_ms == period_ms && steps@[i].value == (
                if i % 2 == 0 {
                    0u8
                } else {
                    1u8
                }),
        decreases total - k,
    {
        let value: u8 = if k % 2 == 0 {
            0
        } else {
            1
        };
        steps.push(BlinkStep { value, hold_ms: period_ms });
        k += 1;
    }
    BlinkPlan { pin: Pin::new(led), steps }
}

} // verus!
