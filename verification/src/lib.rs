//! Cooperative task core of a small serial-shell firmware: the line
//! buffer and command dispatcher of the shell, the debounced button
//! monitor, the bounded sample queue and the indicator blink schedule.

pub mod blinker;
pub mod button;
pub mod command;
pub mod decimal;
pub mod indicator;
pub mod line_buffer;
pub mod sample_channel;
pub mod shell;
pub mod text;
