//! Bring-up protocol of a peripheral reached over a register bus and a block
//! bus, with a reset line, a busy line and a chip-select line.
//!
//! The protocol is a state machine ([`BringUp`]): it names the next hardware
//! operation ([`Action`]) and advances on what that operation reported
//! ([`Outcome`]). Whoever owns the hardware handles performs the operations and
//! feeds the outcomes back; once the machine has finished it hands over a
//! ready [`ExampleDriver`] or the classified [`Error`]. The module [`laws`]
//! states and proves what whole runs of the machine do.
mod config;
mod driver;
mod error;
pub mod laws;
mod protocol;

pub use config::{Config, DEFAULT_POLL_MS, RESET_PULSE_MS, RESET_TIMEOUT_MS};
pub use driver::ExampleDriver;
pub use error::Error;
pub use protocol::{block_probe, register_probe, Action, BringUp, Outcome, Phase, PROBE_ADDRESS};
