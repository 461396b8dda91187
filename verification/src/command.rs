//! The command grammar of the shell and what each command does.

use crate::indicator::IndicatorState;
use crate::text::{str_eq, trim, trimmed};
use vstd::prelude::*;

verus! {

/// A command of the shell.
#[derive(Clone, Copy, Debug, PartialEq, Eq, Structural)]
pub enum Command {
    Help,
    LedOn,
    LedOff,
    LedToggle,
    Status,
    AdcCont,
    Empty,
    Unknown,
}

/// The command that a trimmed line spells. Keywords are matched exactly
/// and with case.
pub open spec fn command_of(word: Seq<char>) -> Command {
    if word == "help"@ {
        Command::Help
    } else if word == "led on"@ {
        Command::LedOn
    } else if word == "led off"@ {
        Command::LedOff
    } else if word == "led toggle"@ {
        Command::LedToggle
    } else if word == "status"@ {
        Command::Status
    } else if word == "adc cont"@ {
        Command::AdcCont
    } else if word.len() == 0 {
        Command::Empty
    } else {
        Command::Unknown
    }
}

/// The indicator after `cmd` has run on an indicator that was `led`.
pub open spec fn led_after(cmd: Command, led: bool) -> bool {
    match cmd {
        Command::LedOn => true,
        Command::LedOff => false,
        Command::LedToggle => !led,
        _ => led,
    }
}

/// The answer to `help`.
pub const HELP_TEXT: &'static str =
    "Comandos disponíveis:\r\n- help: Mostra esta ajuda\r\n- led on: Liga o LED\r\n- led off: Desliga o LED\r\n- led toggle: Alterna o LED\r\n- status: Mostra status do sistema\r\n";

/// The answer of a command that left the indicator enabled.
pub const LED_ON_TEXT: &'static str = "LED ligado\r\n";

/// The answer of a command that left the indicator disabled.
pub const LED_OFF_TEXT: &'static str = "LED desligado\r\n";

/// The answer to `status` while the indicator is enabled.
pub const STATUS_ACTIVE_TEXT: &'static str = "Sistema OK - LED ativo\r\n";

/// The answer to `status` while the indicator is disabled.
pub const STATUS_INACTIVE_TEXT: &'static str = "Sistema OK - LED inativo\r\n";

/// The banner that opens the streaming of samples.
pub const CONTINUOUS_TEXT: &'static str = "Modo continuo (Ctrl+C para sair):\r\n";

/// The answer to a line that is no command.
pub const UNKNOWN_TEXT: &'static str = "Comando não reconhecido. Digite 'help' para ajuda.\r\n";

/// The text that answers `cmd`, given the indicator after it has run. An
/// empty line is answered with nothing.
pub open spec fn response_text(cmd: Command, led: bool) -> Seq<char> {
    match cmd {
        Command::Help => HELP_TEXT@,
        Command::LedOn | Command::LedOff | Command::LedToggle => if led {
            LED_ON_TEXT@
        } else {
            LED_OFF_TEXT@
        },
        Command::Status => if led {
            STATUS_ACTIVE_TEXT@
        } else {
            STATUS_INACTIVE_TEXT@
        },
        Command::AdcCont => CONTINUOUS_TEXT@,
        Command::Empty => Seq::empty(),
        Command::Unknown => UNKNOWN_TEXT@,
    }
}

/// What a command line does: the indicator afterwards, the text sent
/// back, and whether the shell goes on to stream samples.
#[derive(Clone, Copy, Debug, PartialEq, Eq)]
pub struct CommandOutcome {
    pub led: IndicatorState,
    pub response: &'static str,
    pub continuous: bool,
}

impl CommandOutcome {
    /// Whether this is the outcome of `cmd` on an indicator that was
    /// `led`.
    pub open spec fn is_outcome_of(self, cmd: Command, led: bool) -> bool {
        &&& self.led.enabled == led_after(cmd, led)
        &&& self.response@ == response_text(cmd, led_after(cmd, led))
        &&& self.continuous == (cmd == Command::AdcCont)
    }
}

/// Reads a line as a command: surrounding whitespace is ignored.
pub fn parse_command(line: &str) -> (cmd: Command)
    ensures
        cmd == command_of(trimmed(line@)),
{
    let word = trim(line);
    if str_eq(word, "help") {
        Command::Help
    } else if str_eq(word, "led on") {
        Command::LedOn
    } else if str_eq(word, "led off") {
        Command::LedOff
    } else if str_eq(word, "led toggle") {
        Command::LedToggle
    } else if str_eq(word, "status") {
        Command::Status
    } else if str_eq(word, "adc cont") {
        Command::AdcCont
    } else if word.is_empty() {
        Command::Empty
    } else {
        Command::Unknown
    }
}

/// Runs one command line against the indicator.
pub fn process_command(cmd: &str, led: IndicatorState) -> (out: CommandOutcome)
    ensures
        out.is_outcome_of(command_of(trimmed(cmd@)), led.enabled),
{
    let mut led = led;
    let mut continuous = false;
    let response = match parse_command(cmd) {
        Command::Help => HELP_TEXT,
        Command::LedOn => {
            led.set(true);
            LED_ON_TEXT
        },
        Command::LedOff => {
            led.set(false);
            LED_OFF_TEXT
        },
        Command::LedToggle => {
            led.toggle();
            if led.is_enabled() {
                LED_ON_TEXT
            } else {
                LED_OFF_TEXT
            }
        },
        Command::Status => {
            if led.is_enabled() {
                STATUS_ACTIVE_TEXT
            } else {
                STATUS_INACTIVE_TEXT
            }
        },
        Command::AdcCont => {
            continuous = true;
            CONTINUOUS_TEXT
        },
        Command::Empty => {
            proof {
                reveal_strlit("");
                assert(""@ =~= Seq::<char>::empty());
            }
            ""
        },
        Command::Unknown => UNKNOWN_TEXT,
    };
    CommandOutcome { led, response, continuous }
}

/// Idempotence: `led on` and `led off` leave the indicator where a first
/// run of the same command left it, and answer with the same text.
pub proof fn lemma_led_commands_are_idempotent(cmd: Command, led: bool)
    requires
        cmd == Command::LedOn || cmd == Command::LedOff,
    ensures
        led_after(cmd, led) == (cmd == Command::LedOn),
        led_after(cmd, led_after(cmd, led)) == led_after(cmd, led),
        response_text(cmd, led_after(cmd, led_after(cmd, led))) == response_text(
            cmd,
            led_after(cmd, led),
        ),
{
}

} // verus!
