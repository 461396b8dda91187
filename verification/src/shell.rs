//! The shell session: what is sent to the peer, and what the session
//! waits for next, for each byte, sample or cancel poll that arrives.

use crate::command::{command_of, led_after, process_command, response_text, Command};
use crate::decimal::{decimal_digits, format_u16};
use crate::indicator::IndicatorState;
use crate::line_buffer::{text_as_str, LineModel, ShellCommand};
use crate::text::trimmed;
use vstd::prelude::*;
use vstd::utf8::encode_utf8;

verus! {

/// What the session waits for.
#[derive(Clone, Copy, Debug, PartialEq, Eq, Structural)]
pub enum ShellMode {
    /// The next byte of a command line.
    Line,
    /// Streaming samples: the next sample.
    AwaitingSample,
    /// Streaming samples: the outcome of one attempt to read a byte.
    AwaitingCancel,
}

/// What arrived.
#[derive(Clone, Copy, Debug, PartialEq, Eq, Structural)]
pub enum ShellEvent {
    /// A byte from the peer.
    Byte(u8),
    /// A sample from the queue.
    Sample(u16),
    /// The attempt to read a byte while streaming ended: with this byte,
    /// or with none where the read failed.
    CancelPoll(Option<u8>),
}

/// The byte that ends the streaming of samples: ETX, Ctrl-C.
pub const CANCEL_BYTE: u8 = 0x03;

/// The bytes that carry `text` to the peer.
pub open spec fn wire(text: Seq<char>) -> Seq<u8> {
    encode_utf8(text)
}

/// The welcome banner.
pub const BANNER_TEXT: &'static str = "\r\n=== STM32F407 Shell Terminal ===\r\n";

/// The hint that follows the banner.
pub const HINT_TEXT: &'static str = "Digite 'help' para ver os comandos disponíveis.\r\n";

/// The prompt.
pub const PROMPT_TEXT: &'static str = "stm32> ";

/// The label in front of a streamed sample.
pub const SAMPLE_LABEL_TEXT: &'static str = "ADC: ";

/// The line break after a streamed sample.
pub const LINE_BREAK_TEXT: &'static str = "\r\n";

/// The trailer that ends the streaming of samples.
pub const TRAILER_TEXT: &'static str = "Modo continuo encerrado\r\n";

/// What is sent when a session starts: banner, hint and first prompt.
pub open spec fn greeting_bytes() -> Seq<u8> {
    wire(BANNER_TEXT@) + wire(HINT_TEXT@) + wire(PROMPT_TEXT@)
}

/// The echo of a received byte: a printable byte comes back as it is, a
/// carriage return as carriage return and line feed, backspace and DEL
/// as the three bytes that blank the last cell, and nothing else is
/// echoed.
pub open spec fn echo_of(byte: u8) -> Seq<u8> {
    if 0x20 <= byte <= 0x7E {
        seq![byte]
    } else if byte == 0x0D {
        seq![0x0Du8, 0x0Au8]
    } else if byte == 0x08 || byte == 0x7F {
        seq![0x08u8, 0x20u8, 0x08u8]
    } else {
        Seq::empty()
    }
}

/// The line that shows one streamed sample.
pub open spec fn sample_line(value: u16) -> Seq<u8> {
    wire(SAMPLE_LABEL_TEXT@) + decimal_digits(value as nat) + wire(LINE_BREAK_TEXT@)
}

/// A session as contracts see it.
pub struct ShellModel {
    pub line: LineModel,
    pub mode: ShellMode,
}

/// The result of one step: the session and the indicator afterwards and
/// the bytes sent to the peer.
pub struct StepModel {
    pub shell: ShellModel,
    pub led: bool,
    pub output: Seq<u8>,
}

/// One step of a session in line mode on a byte.
pub open spec fn line_step(s: ShellModel, led: bool, byte: u8) -> StepModel {
    let line = s.line.after_char(byte as char);
    if line.ready {
        let cmd = command_of(trimmed(line.text));
        let led = led_after(cmd, led);
        let reply = wire(response_text(cmd, led));
        if cmd == Command::AdcCont {
            StepModel {
                shell: ShellModel { line: LineModel::empty(), mode: ShellMode::AwaitingSample },
                led,
                output: echo_of(byte) + reply,
            }
        } else {
            StepModel {
                shell: ShellModel { line: LineModel::empty(), mode: ShellMode::Line },
                led,
                output: echo_of(byte) + reply + wire(PROMPT_TEXT@),
            }
        }
    } else {
        StepModel { shell: ShellModel { line, mode: ShellMode::Line }, led, output: echo_of(byte) }
    }
}

/// One step of a session. An event that the session does not wait for
/// changes nothing and sends nothing.
pub open spec fn shell_step(s: ShellModel, led: bool, event: ShellEvent) -> StepModel {
    match (s.mode, event) {
        (ShellMode::Line, ShellEvent::Byte(byte)) => line_step(s, led, byte),
        (ShellMode::AwaitingSample, ShellEvent::Sample(value)) => StepModel {
            shell: ShellModel { line: s.line, mode: ShellMode::AwaitingCancel },
            led,
            output: sample_line(value),
        },
        (ShellMode::AwaitingCancel, ShellEvent::CancelPoll(read)) => if read == Some(CANCEL_BYTE) {
            StepModel {
                shell: ShellModel { line: s.line, mode: ShellMode::Line },
                led,
                output: wire(TRAILER_TEXT@) + wire(PROMPT_TEXT@),
            }
        } else {
            StepModel {
                shell: ShellModel { line: s.line, mode: ShellMode::AwaitingSample },
                led,
                output: Seq::empty(),
            }
        },
        _ => StepModel { shell: s, led, output: Seq::empty() },
    }
}

/// Appends `bytes` to `out`.
fn append_bytes(out: &mut Vec<u8>, bytes: &[u8])
    ensures
        final(out)@ == old(out)@ + bytes@,
{
    out.extend_from_slice(bytes);
    assert(out@ =~= old(out)@ + bytes@);
}

/// The echo of a received byte.
pub fn echo(byte: u8) -> (out: Vec<u8>)
    ensures
        out@ == echo_of(byte),
{
    let mut out: Vec<u8> = Vec::new();
    if 0x20 <= byte && byte <= 0x7E {
        out.push(byte);
    } else if byte == 0x0D {
        out.push(0x0D);
        out.push(0x0A);
    } else if byte == 0x08 || byte == 0x7F {
        out.push(0x08);
        out.push(0x20);
        out.push(0x08);
    }
    assert(out@ =~= echo_of(byte));
    out
}

/// What is sent when a session starts.
pub fn greeting() -> (out: Vec<u8>)
    ensures
        out@ == greeting_bytes(),
{
    let mut out: Vec<u8> = Vec::new();
    append_bytes(&mut out, BANNER_TEXT.as_bytes());
    append_bytes(&mut out, HINT_TEXT.as_bytes());
    append_bytes(&mut out, PROMPT_TEXT.as_bytes());
    assert(out@ =~= greeting_bytes());
    out
}

/// The line that shows one streamed sample.
pub fn render_sample(value: u16) -> (out: Vec<u8>)
    ensures
        out@ == sample_line(value),
{
    let mut out: Vec<u8> = Vec::new();
    append_bytes(&mut out, SAMPLE_LABEL_TEXT.as_bytes());
    let digits = format_u16(value);
    append_bytes(&mut out, digits.as_slice());
    append_bytes(&mut out, LINE_BREAK_TEXT.as_bytes());
    assert(out@ =~= sample_line(value));
    out
}

/// Whether a cancel poll ends the streaming: only the byte ETX does.
pub fn is_cancel(read: Option<u8>) -> (cancel: bool)
    ensures
        cancel == (read == Some(CANCEL_BYTE)),
{
    match read {
        Some(byte) => byte == CANCEL_BYTE,
        None => false,
    }
}

/// A shell session.
pub struct Shell {
    line: ShellCommand,
    mode: ShellMode,
}

impl View for Shell {
    type V = ShellModel;

    closed spec fn view(&self) -> ShellModel {
        ShellModel { line: self.line@, mode: self.mode }
    }
}

impl Shell {
    /// A session at its start: an empty line, waiting for a byte.
    pub fn new() -> (shell: Shell)
        ensures
            shell@ == (ShellModel { line: LineModel::empty(), mode: ShellMode::Line }),
    {
        Shell { line: ShellCommand::new(), mode: ShellMode::Line }
    }

    /// What the session waits for.
    pub fn mode(&self) -> (mode: ShellMode)
        ensures
            mode == self@.mode,
    {
        self.mode
    }

    /// Takes one event and returns the bytes to send to the peer.
    pub fn step(&mut self, event: ShellEvent, led: &mut IndicatorState) -> (out: Vec<u8>)
        ensures
            final(self)@ == shell_step(old(self)@, old(led).enabled, event).shell,
            final(led).enabled == shell_step(old(self)@, old(led).enabled, event).led,
            out@ == shell_step(old(self)@, old(led).enabled, event).output,
    {
        match (self.mode, event) {
            (ShellMode::Line, ShellEvent::Byte(byte)) => self.on_byte(byte, led),
            (ShellMode::AwaitingSample, ShellEvent::Sample(value)) => {
                self.mode = ShellMode::AwaitingCancel;
                render_sample(value)
            },
            (ShellMode::AwaitingCancel, ShellEvent::CancelPoll(read)) => {
                let mut out: Vec<u8> = Vec::new();
                if is_cancel(read) {
                    self.mode = ShellMode::Line;
                    append_bytes(&mut out, TRAILER_TEXT.as_bytes());
                    append_bytes(&mut out, PROMPT_TEXT.as_bytes());
                } else {
                    self.mode = ShellMode::AwaitingSample;
                }
                assert(out@ =~= shell_step(old(self)@, old(led).enabled, event).output);
                out
            },
            _ => Vec::new(),
        }
    }

    /// Takes one byte of a command line: echoes it, buffers it, and runs
    /// the line when the byte completes it.
    fn on_byte(&mut self, byte: u8, led: &mut IndicatorState) -> (out: Vec<u8>)
        requires
            old(self)@.mode == ShellMode::Line,
        ensures
            final(self)@ == line_step(old(self)@, old(led).enabled, byte).shell,
            final(led).enabled == line_step(old(self)@, old(led).enabled, byte).led,
            out@ == line_step(old(self)@, old(led).enabled, byte).output,
    {
        let mut out = echo(byte);
        self.line.add_char(byte as char);
        match self.line.get_command() {
            Some(command) => {
                let outcome = process_command(text_as_str(&command), *led);
                *led = outcome.led;
                append_bytes(&mut out, outcome.response.as_bytes());
                if outcome.continuous {
                    self.mode = ShellMode::AwaitingSample;
                } else {
                    append_bytes(&mut out, PROMPT_TEXT.as_bytes());
                }
                assert(out@ =~= line_step(old(self)@, old(led).enabled, byte).output);
            },
            None => {},
        }
        out
    }
}

/// The session and the bytes sent after the events of `events` in
/// order.
pub open spec fn shell_run(s: ShellModel, led: bool, events: Seq<ShellEvent>) -> StepModel
    decreases events.len(),
{
    if events.len() == 0 {
        StepModel { shell: s, led, output: Seq::empty() }
    } else {
        let before = shell_run(s, led, events.drop_last());
        let step = shell_step(before.shell, before.led, events.last());
        StepModel { shell: step.shell, led: step.led, output: before.output + step.output }
    }
}

/// The events of a stretch of streaming: each sample is followed by the
/// cancel poll that came after it.
pub open spec fn streaming_events(rounds: Seq<(u16, Option<u8>)>) -> Seq<ShellEvent>
    decreases rounds.len(),
{
    if rounds.len() == 0 {
        Seq::empty()
    } else {
        streaming_events(rounds.drop_last()).push(ShellEvent::Sample(rounds.last().0)).push(
            ShellEvent::CancelPoll(rounds.last().1),
        )
    }
}

/// One line for each sample of `rounds`, in order.
pub open spec fn streamed_lines(rounds: Seq<(u16, Option<u8>)>) -> Seq<u8>
    decreases rounds.len(),
{
    if rounds.len() == 0 {
        Seq::empty()
    } else {
        streamed_lines(rounds.drop_last()) + sample_line(rounds.last().0)
    }
}

/// No cancel poll of `rounds` read the cancel byte.
pub open spec fn none_cancels(rounds: Seq<(u16, Option<u8>)>) -> bool {
    forall|i: int| 0 <= i < rounds.len() ==> (#[trigger] rounds[i]).1 != Some(CANCEL_BYTE)
}

/// A line that is not ready stays so through every step: a completed
/// line is run and cleared within the step that completes it.
pub proof fn lemma_line_is_open_between_steps(s: ShellModel, led: bool, event: ShellEvent)
    requires
        !s.line.ready,
    ensures
        !shell_step(s, led, event).shell.line.ready,
{
}

/// Streaming: while no poll reads the cancel byte, each sample sends
/// exactly its one line, and the session goes on streaming with the
/// indicator and the line buffer untouched.
pub proof fn lemma_each_sample_sends_one_line(
    s: ShellModel,
    led: bool,
    rounds: Seq<(u16, Option<u8>)>,
)
    requires
        s.mode == ShellMode::AwaitingSample,
        none_cancels(rounds),
    ensures
        shell_run(s, led, streaming_events(rounds)) == (StepModel {
            shell: s,
            led,
            output: streamed_lines(rounds),
        }),
    decreases rounds.len(),
{
    if rounds.len() > 0 {
        let head = rounds.drop_last();
        assert(none_cancels(head)) by {
            assert forall|i: int| 0 <= i < head.len() implies (#[trigger] head[i]).1 != Some(
                CANCEL_BYTE,
            ) by {
                assert(head[i] == rounds[i]);
            }
        }
        lemma_each_sample_sends_one_line(s, led, head);
        let sample = ShellEvent::Sample(rounds.last().0);
        let events = streaming_events(rounds);
        assert(events.drop_last() =~= streaming_events(head).push(sample));
        assert(events.drop_last().drop_last() =~= streaming_events(head));
        assert(rounds[rounds.len() - 1].1 != Some(CANCEL_BYTE));
        let mid = shell_run(s, led, events.drop_last());
        assert(mid.output =~= streamed_lines(head) + sample_line(rounds.last().0));
        assert(shell_run(s, led, events).output =~= streamed_lines(rounds));
    }
}

/// Cancelling: the cancel byte read by a poll ends the streaming with
/// the trailer and a fresh prompt, and the session waits for a command
/// line again.
pub proof fn lemma_cancel_restores_prompt(s: ShellModel, led: bool)
    requires
        s.mode == ShellMode::AwaitingCancel,
    ensures
        shell_step(s, led, ShellEvent::CancelPoll(Some(CANCEL_BYTE))) == (StepModel {
            shell: ShellModel { line: s.line, mode: ShellMode::Line },
            led,
            output: wire(TRAILER_TEXT@) + wire(PROMPT_TEXT@),
        }),
{
}

} // verus!
