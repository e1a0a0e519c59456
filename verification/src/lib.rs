//! Transport-independent core of a command-line client for a serial-attached
//! power-management controller: reply framing, reply clean-up, field
//! extraction and error classification, with machine-checked contracts.

pub mod chars;
pub mod json;
pub mod reply;
pub mod error;
pub mod framing;
pub mod connection;
pub mod cli;
pub mod protocol;
pub mod power;
pub mod output;
pub mod firmware;

pub use connection::Connection;
pub use error::PowerCliError;
pub use power::BatteryMonitor;
pub use protocol::Protocol;
