//! The blink schedule of the indicator output.

use crate::indicator::IndicatorState;
use vstd::prelude::*;

verus! {

/// Milliseconds that the output stays at each level while blinking.
pub const BLINK_HALF_PERIOD_MS: u64 = 500;

/// Milliseconds between two looks at a disabled indicator.
pub const IDLE_POLL_MS: u64 = 100;

/// Where the loop stands in its cycle.
#[derive(Clone, Copy, Debug, PartialEq, Eq, Structural)]
pub enum BlinkPhase {
    /// About to read the indicator.
    Poll,
    /// The output has been high for half a period.
    HighDone,
}

/// One action of the loop: drive the output to a level, then wait.
#[derive(Clone, Copy, Debug, PartialEq, Eq, Structural)]
pub struct Drive {
    pub level_high: bool,
    pub wait_ms: u64,
}

/// The action that the loop takes in `phase`. The indicator is read at
/// the start of a cycle only: an enabled indicator starts a cycle of
/// high then low, half a period each, and a disabled one holds the
/// output low for the idle interval.
pub open spec fn drive_of(phase: BlinkPhase, enabled: bool) -> Drive {
    match phase {
        BlinkPhase::Poll => if enabled {
            Drive { level_high: true, wait_ms: BLINK_HALF_PERIOD_MS }
        } else {
            Drive { level_high: false, wait_ms: IDLE_POLL_MS }
        },
        BlinkPhase::HighDone => Drive { level_high: false, wait_ms: BLINK_HALF_PERIOD_MS },
    }
}

/// The phase that follows `phase`.
pub open spec fn phase_after(phase: BlinkPhase, enabled: bool) -> BlinkPhase {
    match phase {
        BlinkPhase::Poll => if enabled {
            BlinkPhase::HighDone
        } else {
            BlinkPhase::Poll
        },
        BlinkPhase::HighDone => BlinkPhase::Poll,
    }
}

/// The loop's next action and the phase after it.
pub fn blink_step(phase: BlinkPhase, led: IndicatorState) -> (step: (Drive, BlinkPhase))
    ensures
        step.0 == drive_of(phase, led.enabled),
        step.1 == phase_after(phase, led.enabled),
{
    match phase {
        BlinkPhase::Poll => {
            if led.enabled {
                (Drive { level_high: true, wait_ms: BLINK_HALF_PERIOD_MS }, BlinkPhase::HighDone)
            } else {
                (Drive { level_high: false, wait_ms: IDLE_POLL_MS }, BlinkPhase::Poll)
            }
        },
        BlinkPhase::HighDone => (
            Drive { level_high: false, wait_ms: BLINK_HALF_PERIOD_MS },
            BlinkPhase::Poll,
        ),
    }
}

} // verus!
