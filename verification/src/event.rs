//! The events that drive the dashboard, and the timing of its ticks.

use vstd::prelude::*;

verus! {

/// The time between two ticks, in milliseconds.
pub const TICK_RATE_MILLIS: u64 = 250;

/// One event of the input loop: a key, or the tick that falls due when the
/// tick interval has passed.
#[derive(Clone, Copy, Debug, PartialEq, Eq, Structural)]
pub enum Event {
    Left,
    Up,
    Right,
    Down,
    Tab,
    Char(char),
    Tick,
}

/// How long the loop may wait for a key before the next tick falls due,
/// `elapsed` milliseconds after the last one: the rest of the interval, and
/// nothing once the interval has passed.
pub open spec fn spec_poll_timeout(tick_rate: u64, elapsed: u64) -> u64 {
    if elapsed >= tick_rate {
        0
    } else {
        (tick_rate - elapsed) as u64
    }
}

/// Whether a tick is due `elapsed` milliseconds after the last one.
pub open spec fn spec_tick_due(tick_rate: u64, elapsed: u64) -> bool {
    elapsed >= tick_rate
}

/// How long the loop may wait for a key before the next tick falls due.
#[verifier::when_used_as_spec(spec_poll_timeout)]
pub fn poll_timeout(tick_rate: u64, elapsed: u64) -> (timeout: u64)
    ensures
        timeout == spec_poll_timeout(tick_rate, elapsed),
        timeout <= tick_rate,
        timeout == 0 <==> spec_tick_due(tick_rate, elapsed),
{
    if elapsed >= tick_rate {
        0
    } else {
        tick_rate - elapsed
    }
}

/// Whether a tick is due `elapsed` milliseconds after the last one.
#[verifier::when_used_as_spec(spec_tick_due)]
pub fn tick_due(tick_rate: u64, elapsed: u64) -> (due: bool)
    ensures
        due == spec_tick_due(tick_rate, elapsed),
{
    elapsed >= tick_rate
}

} // verus!
