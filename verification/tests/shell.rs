use stm32_shell::indicator::IndicatorState;
use stm32_shell::shell::{echo, greeting, is_cancel, render_sample, Shell, ShellEvent, ShellMode, CANCEL_BYTE};

const PROMPT: &[u8] = b"stm32> ";

fn type_line(shell: &mut Shell, led: &mut IndicatorState, line: &str) -> Vec<u8> {
    let mut out = Vec::new();
    for b in line.bytes() {
        out.extend(shell.step(ShellEvent::Byte(b), led));
    }
    out
}

fn expect(parts: &[&[u8]]) -> Vec<u8> {
    parts.concat()
}

#[test]
fn greeting_is_banner_hint_and_prompt() {
    let expected = "\r\n=== STM32F407 Shell Terminal ===\r\nDigite 'help' para ver os comandos disponíveis.\r\nstm32> ";
    assert_eq!(greeting(), expected.as_bytes().to_vec());
}

#[test]
fn printable_bytes_are_echoed() {
    for b in 0x20u8..=0x7E {
        assert_eq!(echo(b), vec![b]);
    }
}

#[test]
fn carriage_return_is_echoed_as_a_line_break() {
    assert_eq!(echo(b'\r'), b"\r\n".to_vec());
}

#[test]
fn erase_is_echoed_as_back_blank_back() {
    assert_eq!(echo(0x08), vec![0x08, 0x20, 0x08]);
    assert_eq!(echo(0x7F), vec![0x08, 0x20, 0x08]);
}

#[test]
fn other_bytes_are_not_echoed() {
    for b in (0u8..0x20).chain(0x80u8..=0xFF) {
        if b != 0x08 && b != 0x0D {
            assert_eq!(echo(b), Vec::<u8>::new(), "{:#x}", b);
        }
    }
}

#[test]
fn sample_lines() {
    assert_eq!(render_sample(0), b"ADC: 0\r\n".to_vec());
    assert_eq!(render_sample(7), b"ADC: 7\r\n".to_vec());
    assert_eq!(render_sample(10), b"ADC: 10\r\n".to_vec());
    assert_eq!(render_sample(100), b"ADC: 100\r\n".to_vec());
    assert_eq!(render_sample(4095), b"ADC: 4095\r\n".to_vec());
    assert_eq!(render_sample(65535), b"ADC: 65535\r\n".to_vec());
}

#[test]
fn only_etx_cancels() {
    assert_eq!(CANCEL_BYTE, 0x03);
    assert!(is_cancel(Some(0x03)));
    assert!(!is_cancel(None));
    for b in 0u8..=0xFF {
        assert_eq!(is_cancel(Some(b)), b == 0x03);
    }
}

#[test]
fn session_starts_in_line_mode() {
    assert_eq!(Shell::new().mode(), ShellMode::Line);
}

#[test]
fn typing_is_echoed_until_the_line_ends() {
    let mut shell = Shell::new();
    let mut led = IndicatorState::new();
    assert_eq!(type_line(&mut shell, &mut led, "stat"), b"stat".to_vec());
    assert_eq!(shell.mode(), ShellMode::Line);
    assert!(led.is_enabled());
}

#[test]
fn status_is_answered_and_prompted() {
    let mut shell = Shell::new();
    let mut led = IndicatorState::new();
    let out = type_line(&mut shell, &mut led, "status\r");
    assert_eq!(out, expect(&[b"status\r\n", b"Sistema OK - LED ativo\r\n", PROMPT]));
    assert_eq!(shell.mode(), ShellMode::Line);
}

#[test]
fn led_commands_change_the_indicator() {
    let mut shell = Shell::new();
    let mut led = IndicatorState::new();
    let out = type_line(&mut shell, &mut led, "led off\r");
    assert_eq!(out, expect(&[b"led off\r\n", b"LED desligado\r\n", PROMPT]));
    assert!(!led.is_enabled());
    let out = type_line(&mut shell, &mut led, "status\r");
    assert_eq!(out, expect(&[b"status\r\n", b"Sistema OK - LED inativo\r\n", PROMPT]));
    let out = type_line(&mut shell, &mut led, "led toggle\r");
    assert_eq!(out, expect(&[b"led toggle\r\n", b"LED ligado\r\n", PROMPT]));
    assert!(led.is_enabled());
    let out = type_line(&mut shell, &mut led, "led on\r");
    assert_eq!(out, expect(&[b"led on\r\n", b"LED ligado\r\n", PROMPT]));
    assert!(led.is_enabled());
}

#[test]
fn empty_line_only_prompts() {
    let mut shell = Shell::new();
    let mut led = IndicatorState::new();
    let out = shell.step(ShellEvent::Byte(b'\r'), &mut led);
    assert_eq!(out, expect(&[b"\r\n", PROMPT]));
}

#[test]
fn line_feed_ends_a_line_without_an_echo() {
    let mut shell = Shell::new();
    let mut led = IndicatorState::new();
    let out = type_line(&mut shell, &mut led, "led off\n");
    assert_eq!(out, expect(&[b"led off", b"LED desligado\r\n", PROMPT]));
    assert!(!led.is_enabled());
}

#[test]
fn unknown_command_is_reported() {
    let mut shell = Shell::new();
    let mut led = IndicatorState::new();
    let out = type_line(&mut shell, &mut led, "reboot\r");
    let reply = "Comando não reconhecido. Digite 'help' para ajuda.\r\n";
    assert_eq!(out, expect(&[b"reboot\r\n", reply.as_bytes(), PROMPT]));
    assert!(led.is_enabled());
}

#[test]
fn typed_whitespace_around_a_command_is_ignored() {
    let mut shell = Shell::new();
    let mut led = IndicatorState::new();
    let out = type_line(&mut shell, &mut led, "  led off \r");
    assert_eq!(out, expect(&[b"  led off \r\n", b"LED desligado\r\n", PROMPT]));
    assert!(!led.is_enabled());
}

#[test]
fn erased_characters_do_not_reach_the_command() {
    let mut shell = Shell::new();
    let mut led = IndicatorState::new();
    let out = type_line(&mut shell, &mut led, "led ofx\x08f\r");
    assert_eq!(
        out,
        expect(&[b"led ofx", b"\x08 \x08", b"f\r\n", b"LED desligado\r\n", PROMPT])
    );
    assert!(!led.is_enabled());
}

#[test]
fn overlong_line_is_cut_to_what_was_captured() {
    let mut shell = Shell::new();
    let mut led = IndicatorState::new();
    let mut typed = " ".repeat(56);
    typed.push_str("led offXXXXXXX");
    let out = type_line(&mut shell, &mut led, &typed);
    assert_eq!(out, typed.as_bytes().to_vec());
    let out = shell.step(ShellEvent::Byte(b'\r'), &mut led);
    assert_eq!(out, expect(&[b"\r\n", b"LED desligado\r\n", PROMPT]));
    assert!(!led.is_enabled());
}

#[test]
fn streaming_sends_one_line_for_each_sample() {
    let mut shell = Shell::new();
    let mut led = IndicatorState::new();
    let out = type_line(&mut shell, &mut led, "adc cont\r");
    assert_eq!(out, expect(&[b"adc cont\r\n", b"Modo continuo (Ctrl+C para sair):\r\n"]));
    assert_eq!(shell.mode(), ShellMode::AwaitingSample);

    let out = shell.step(ShellEvent::Sample(1234), &mut led);
    assert_eq!(out, b"ADC: 1234\r\n".to_vec());
    assert_eq!(shell.mode(), ShellMode::AwaitingCancel);
    let out = shell.step(ShellEvent::CancelPoll(None), &mut led);
    assert!(out.is_empty());
    assert_eq!(shell.mode(), ShellMode::AwaitingSample);

    let out = shell.step(ShellEvent::Sample(0), &mut led);
    assert_eq!(out, b"ADC: 0\r\n".to_vec());
    let out = shell.step(ShellEvent::CancelPoll(Some(b'q')), &mut led);
    assert!(out.is_empty());
    assert_eq!(shell.mode(), ShellMode::AwaitingSample);

    let out = shell.step(ShellEvent::Sample(4095), &mut led);
    assert_eq!(out, b"ADC: 4095\r\n".to_vec());
    let out = shell.step(ShellEvent::CancelPoll(Some(0x03)), &mut led);
    assert_eq!(out, expect(&[b"Modo continuo encerrado\r\n", PROMPT]));
    assert_eq!(shell.mode(), ShellMode::Line);
    assert!(led.is_enabled());

    let out = type_line(&mut shell, &mut led, "status\r");
    assert_eq!(out, expect(&[b"status\r\n", b"Sistema OK - LED ativo\r\n", PROMPT]));
}

#[test]
fn events_that_are_not_awaited_are_passed_over() {
    let mut shell = Shell::new();
    let mut led = IndicatorState::new();
    assert!(shell.step(ShellEvent::Sample(5), &mut led).is_empty());
    assert!(shell.step(ShellEvent::CancelPoll(Some(0x03)), &mut led).is_empty());
    assert_eq!(shell.mode(), ShellMode::Line);
    type_line(&mut shell, &mut led, "adc cont\r");
    assert!(shell.step(ShellEvent::Byte(b'x'), &mut led).is_empty());
    assert!(shell.step(ShellEvent::CancelPoll(Some(0x03)), &mut led).is_empty());
    assert_eq!(shell.mode(), ShellMode::AwaitingSample);
    shell.step(ShellEvent::Sample(1), &mut led);
    assert!(shell.step(ShellEvent::Sample(2), &mut led).is_empty());
    assert!(shell.step(ShellEvent::Byte(0x03), &mut led).is_empty());
    assert_eq!(shell.mode(), ShellMode::AwaitingCancel);
}

#[test]
fn etx_in_line_mode_is_an_ordinary_byte() {
    let mut shell = Shell::new();
    let mut led = IndicatorState::new();
    let out = shell.step(ShellEvent::Byte(0x03), &mut led);
    assert!(out.is_empty());
    let reply = "Comando não reconhecido. Digite 'help' para ajuda.\r\n";
    let out = shell.step(ShellEvent::Byte(b'\r'), &mut led);
    assert_eq!(out, expect(&[b"\r\n", reply.as_bytes(), PROMPT]));
}
