use stm32_shell::button::{ButtonEvent, ButtonMonitor, ButtonState};
use stm32_shell::indicator::IndicatorState;

const PRESS: ButtonEvent = ButtonEvent::Rising { level_high: true };
const GLITCH: ButtonEvent = ButtonEvent::Rising { level_high: false };

fn run(monitor: &mut ButtonMonitor, led: &mut IndicatorState, events: &[ButtonEvent]) -> usize {
    let mut toggles = 0;
    for event in events {
        let before = led.is_enabled();
        monitor.on_edge(*event, led);
        if led.is_enabled() != before {
            toggles += 1;
        }
    }
    toggles
}

#[test]
fn monitor_starts_idle() {
    assert_eq!(ButtonMonitor::new().state(), ButtonState::Idle);
}

#[test]
fn press_and_release_toggle_once() {
    let mut monitor = ButtonMonitor::new();
    let mut led = IndicatorState::new();
    let toggles = run(&mut monitor, &mut led, &[PRESS, ButtonEvent::Falling]);
    assert_eq!(toggles, 1);
    assert!(!led.is_enabled());
    assert_eq!(monitor.state(), ButtonState::Idle);
}

#[test]
fn noise_between_the_edges_does_not_toggle() {
    let mut monitor = ButtonMonitor::new();
    let mut led = IndicatorState::new();
    let events = [PRESS, PRESS, GLITCH, PRESS, PRESS, GLITCH, ButtonEvent::Falling];
    let toggles = run(&mut monitor, &mut led, &events);
    assert_eq!(toggles, 1);
    assert!(!led.is_enabled());
    assert_eq!(monitor.state(), ButtonState::Idle);
}

#[test]
fn press_is_counted_at_the_rising_edge() {
    let mut monitor = ButtonMonitor::new();
    let mut led = IndicatorState::new();
    monitor.on_edge(PRESS, &mut led);
    assert!(!led.is_enabled());
    assert_eq!(monitor.state(), ButtonState::Pressed);
}

#[test]
fn rising_edge_that_reads_low_is_passed_over() {
    let mut monitor = ButtonMonitor::new();
    let mut led = IndicatorState::new();
    monitor.on_edge(GLITCH, &mut led);
    assert!(led.is_enabled());
    assert_eq!(monitor.state(), ButtonState::Idle);
}

#[test]
fn falling_edge_while_idle_is_passed_over() {
    let mut monitor = ButtonMonitor::new();
    let mut led = IndicatorState::new();
    monitor.on_edge(ButtonEvent::Falling, &mut led);
    assert!(led.is_enabled());
    assert_eq!(monitor.state(), ButtonState::Idle);
}

#[test]
fn two_presses_toggle_twice() {
    let mut monitor = ButtonMonitor::new();
    let mut led = IndicatorState::new();
    let events = [PRESS, GLITCH, ButtonEvent::Falling, PRESS, PRESS, ButtonEvent::Falling];
    let toggles = run(&mut monitor, &mut led, &events);
    assert_eq!(toggles, 2);
    assert!(led.is_enabled());
    assert_eq!(monitor.state(), ButtonState::Idle);
}

#[test]
fn held_button_toggles_once() {
    let mut monitor = ButtonMonitor::new();
    let mut led = IndicatorState { enabled: false };
    let events = [PRESS; 50];
    let toggles = run(&mut monitor, &mut led, &events);
    assert_eq!(toggles, 1);
    assert!(led.is_enabled());
    assert_eq!(monitor.state(), ButtonState::Pressed);
}
