//! The button monitor: one toggle of the indicator for each press and
//! release of the button.

use crate::indicator::IndicatorState;
use vstd::prelude::*;

verus! {

/// Where the monitor stands in a press.
#[derive(Clone, Copy, Debug, PartialEq, Eq, Structural)]
pub enum ButtonState {
    /// Waiting for a rising edge.
    Idle,
    /// A press was counted; waiting for the falling edge that ends it.
    Pressed,
}

/// A transition on the input.
#[derive(Clone, Copy, Debug, PartialEq, Eq, Structural)]
pub enum ButtonEvent {
    /// Low to high, with the level read right after the edge.
    Rising { level_high: bool },
    /// High to low.
    Falling,
}

/// Whether `event` is a press that counts in `state`: a rising edge
/// while idle whose level reads high.
pub open spec fn counts_as_press(state: ButtonState, event: ButtonEvent) -> bool {
    state == ButtonState::Idle && event == (ButtonEvent::Rising { level_high: true })
}

/// The state after `event`. A press that counts arms the wait for the
/// falling edge, the falling edge ends it, and every other edge is
/// passed over.
pub open spec fn next_state(state: ButtonState, event: ButtonEvent) -> ButtonState {
    match (state, event) {
        (ButtonState::Idle, ButtonEvent::Rising { level_high: true }) => ButtonState::Pressed,
        (ButtonState::Pressed, ButtonEvent::Falling) => ButtonState::Idle,
        _ => state,
    }
}

/// The state after the edges of `events` in order.
pub open spec fn state_after(state: ButtonState, events: Seq<ButtonEvent>) -> ButtonState
    decreases events.len(),
{
    if events.len() == 0 {
        state
    } else {
        next_state(state_after(state, events.drop_last()), events.last())
    }
}

/// Number of presses that count among the edges of `events`, starting
/// in `state`.
pub open spec fn presses(state: ButtonState, events: Seq<ButtonEvent>) -> nat
    decreases events.len(),
{
    if events.len() == 0 {
        0
    } else {
        let before = events.drop_last();
        presses(state, before) + if counts_as_press(state_after(state, before), events.last()) {
            1nat
        } else {
            0nat
        }
    }
}

/// The indicator after `n` toggles.
pub open spec fn toggled(led: bool, n: nat) -> bool {
    if n % 2 == 0 {
        led
    } else {
        !led
    }
}

/// The debouncing monitor of the button.
pub struct ButtonMonitor {
    state: ButtonState,
}

impl View for ButtonMonitor {
    type V = ButtonState;

    closed spec fn view(&self) -> ButtonState {
        self.state
    }
}

impl ButtonMonitor {
    /// A monitor that waits for a press.
    pub fn new() -> (monitor: ButtonMonitor)
        ensures
            monitor@ == ButtonState::Idle,
    {
        ButtonMonitor { state: ButtonState::Idle }
    }

    /// Where the monitor stands.
    pub fn state(&self) -> (state: ButtonState)
        ensures
            state == self@,
    {
        self.state
    }

    /// Takes one edge: toggles the indicator if it is a press that
    /// counts, and moves on.
    pub fn on_edge(&mut self, event: ButtonEvent, led: &mut IndicatorState)
        ensures
            final(self)@ == next_state(old(self)@, event),
            final(led).enabled == if counts_as_press(old(self)@, event) {
                !old(led).enabled
            } else {
                old(led).enabled
            },
    {
        match (self.state, event) {
            (ButtonState::Idle, ButtonEvent::Rising { level_high }) => {
                if level_high {
                    led.toggle();
                    self.state = ButtonState::Pressed;
                }
            },
            (ButtonState::Pressed, ButtonEvent::Falling) => {
                self.state = ButtonState::Idle;
            },
            _ => {},
        }
    }
}

/// Every edge of `events` is a rising edge.
pub open spec fn all_rising(events: Seq<ButtonEvent>) -> bool {
    forall|i: int| 0 <= i < events.len() ==> #[trigger] events[i] is Rising
}

/// While a press is held, rising edges change nothing and count for
/// nothing.
pub proof fn lemma_noise_is_passed_over(noise: Seq<ButtonEvent>)
    requires
        all_rising(noise),
    ensures
        state_after(ButtonState::Pressed, noise) == ButtonState::Pressed,
        presses(ButtonState::Pressed, noise) == 0,
    decreases noise.len(),
{
    if noise.len() > 0 {
        assert(noise.last() is Rising);
        assert(all_rising(noise.drop_last())) by {
            assert forall|i: int| 0 <= i < noise.drop_last().len() implies #[trigger] noise.drop_last()[i] is Rising by {
                assert(noise.drop_last()[i] == noise[i]);
            }
        }
        lemma_noise_is_passed_over(noise.drop_last());
    }
}

/// The edges of `head` followed by those of `tail` lead where `tail`
/// leads from the state after `head`, and count the presses of both.
pub proof fn lemma_edges_concat(state: ButtonState, head: Seq<ButtonEvent>, tail: Seq<ButtonEvent>)
    ensures
        state_after(state, head + tail) == state_after(state_after(state, head), tail),
        presses(state, head + tail) == presses(state, head) + presses(
            state_after(state, head),
            tail,
        ),
    decreases tail.len(),
{
    if tail.len() == 0 {
        assert(head + tail =~= head);
    } else {
        assert((head + tail).drop_last() =~= head + tail.drop_last());
        assert((head + tail).last() == tail.last());
        lemma_edges_concat(state, head, tail.drop_last());
    }
}

/// Debounce: a rising edge that reads high, then any number of further
/// rising edges, then the falling edge, toggle the indicator exactly
/// once and leave the monitor waiting for the next press.
pub proof fn lemma_one_toggle_per_press(led: bool, noise: Seq<ButtonEvent>)
    requires
        all_rising(noise),
    ensures
        ({
            let cycle = seq![ButtonEvent::Rising { level_high: true }] + noise
                + seq![ButtonEvent::Falling];
            &&& presses(ButtonState::Idle, cycle) == 1
            &&& state_after(ButtonState::Idle, cycle) == ButtonState::Idle
            &&& toggled(led, presses(ButtonState::Idle, cycle)) == !led
        }),
{
    let press = seq![ButtonEvent::Rising { level_high: true }];
    let release = seq![ButtonEvent::Falling];
    reveal_with_fuel(state_after, 2);
    reveal_with_fuel(presses, 2);
    assert(press.drop_last() =~= Seq::<ButtonEvent>::empty());
    assert(release.drop_last() =~= Seq::<ButtonEvent>::empty());
    assert(state_after(ButtonState::Idle, press) == ButtonState::Pressed);
    assert(presses(ButtonState::Idle, press) == 1);
    lemma_noise_is_passed_over(noise);
    lemma_edges_concat(ButtonState::Idle, press, noise);
    assert(state_after(ButtonState::Pressed, release) == ButtonState::Idle);
    assert(presses(ButtonState::Pressed, release) == 0);
    lemma_edges_concat(ButtonState::Idle, press + noise, release);
}

} // verus!
