use stm32_shell::blinker::{blink_step, BlinkPhase, Drive, BLINK_HALF_PERIOD_MS, IDLE_POLL_MS};
use stm32_shell::indicator::IndicatorState;

#[test]
fn indicator_starts_enabled() {
    assert!(IndicatorState::new().is_enabled());
}

#[test]
fn indicator_can_be_set_and_toggled() {
    let mut led = IndicatorState::new();
    led.set(false);
    assert!(!led.is_enabled());
    led.set(false);
    assert!(!led.is_enabled());
    led.toggle();
    assert!(led.is_enabled());
    led.toggle();
    assert!(!led.is_enabled());
    led.set(true);
    assert!(led.is_enabled());
}

#[test]
fn blink_intervals() {
    assert_eq!(BLINK_HALF_PERIOD_MS, 500);
    assert_eq!(IDLE_POLL_MS, 100);
}

#[test]
fn enabled_indicator_blinks_at_one_hertz() {
    let led = IndicatorState { enabled: true };
    let (first, phase) = blink_step(BlinkPhase::Poll, led);
    assert_eq!(first, Drive { level_high: true, wait_ms: 500 });
    assert_eq!(phase, BlinkPhase::HighDone);
    let (second, phase) = blink_step(phase, led);
    assert_eq!(second, Drive { level_high: false, wait_ms: 500 });
    assert_eq!(phase, BlinkPhase::Poll);
    assert_eq!(first.wait_ms + second.wait_ms, 1000);
}

#[test]
fn disabled_indicator_holds_the_output_low() {
    let led = IndicatorState { enabled: false };
    let (drive, phase) = blink_step(BlinkPhase::Poll, led);
    assert_eq!(drive, Drive { level_high: false, wait_ms: 100 });
    assert_eq!(phase, BlinkPhase::Poll);
}

#[test]
fn a_started_cycle_is_finished_whatever_the_indicator() {
    let led = IndicatorState { enabled: false };
    let (drive, phase) = blink_step(BlinkPhase::HighDone, led);
    assert_eq!(drive, Drive { level_high: false, wait_ms: 500 });
    assert_eq!(phase, BlinkPhase::Poll);
}
