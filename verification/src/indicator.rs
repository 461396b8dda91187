//! The shared indicator flag: whether the LED blinks.

use vstd::prelude::*;

verus! {

/// The one flag that the button, the shell and the blink loop share.
#[derive(Clone, Copy, Debug, PartialEq, Eq, Structural)]
pub struct IndicatorState {
    pub enabled: bool,
}

impl IndicatorState {
    /// The state at start-up: enabled.
    pub fn new() -> (led: IndicatorState)
        ensures
            led.enabled,
    {
        IndicatorState { enabled: true }
    }

    /// Whether the indicator is enabled.
    pub fn is_enabled(&self) -> (enabled: bool)
        ensures
            enabled == self.enabled,
    {
        self.enabled
    }

    /// Enables or disables the indicator.
    pub fn set(&mut self, enabled: bool)
        ensures
            final(self).enabled == enabled,
    {
        self.enabled = enabled;
    }

    /// Flips the indicator.
    pub fn toggle(&mut self)
        ensures
            final(self).enabled == !old(self).enabled,
    {
        self.enabled = !self.enabled;
    }
}

} // verus!
