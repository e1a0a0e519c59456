//! The closed set of failures that the client reports, and the scan that
//! finds a failure reported by the controller in the text of a reply.

use vstd::prelude::*;
use vstd::string::StringExecFns;
use crate::chars::{contains, decimal_text, format_unsigned, includes, to_chars, to_text};

verus! {

/// Every failure of the client. Failures of the transport carry the text of
/// the underlying error.
#[derive(Debug, Clone, PartialEq, Eq)]
pub enum PowerCliError {
    /// The serial layer refused an operation.
    Serial(String),
    /// The asynchronous serial layer refused an operation.
    TokioSerial(String),
    /// Reading from or writing to the link failed.
    Io(String),
    /// No complete reply arrived within the configured number of seconds.
    Timeout { timeout: u64 },
    /// The reply could not be understood.
    InvalidResponse { response: String },
    /// The controller itself reported a failure; the message is its reply.
    ControllerError { message: String },
    /// The configuration could not be read.
    Config(String),
    /// JSON could not be written or read.
    Json(String),
    /// The device path does not exist.
    DeviceNotFound { device: String },
    /// A command was issued before the link was opened.
    NotConnected,
    /// A command lacked an argument or was not known.
    InvalidCommand { command: String },
    /// Battery monitoring failed.
    BatteryError { message: String },
    /// Power control failed.
    PowerError { message: String },
    /// The NFC interface failed.
    NfcError { message: String },
    /// GPIO control failed.
    GpioError { message: String },
    /// Firmware management failed.
    FirmwareError { message: String },
}

impl PowerCliError {
    /// The text that describes the failure to a user.
    pub open spec fn describe(&self) -> Seq<char> {
        match self {
            PowerCliError::Serial(m) => "Serial communication error: "@ + m@,
            PowerCliError::TokioSerial(m) => "Async serial error: "@ + m@,
            PowerCliError::Io(m) => "I/O error: "@ + m@,
            PowerCliError::Timeout { timeout } => "Command timeout after "@ + decimal_text(
                *timeout as nat,
            ) + "s"@,
            PowerCliError::InvalidResponse { response } => "Invalid response from controller: "@
                + response@,
            PowerCliError::ControllerError { message } => "Controller error: "@ + message@,
            PowerCliError::Config(m) => "Configuration error: "@ + m@,
            PowerCliError::Json(m) => "JSON parsing error: "@ + m@,
            PowerCliError::DeviceNotFound { device } => "Device not found: "@ + device@,
            PowerCliError::NotConnected => "Connection not established - call connect() first"@,
            PowerCliError::InvalidCommand { command } => "Invalid command format: "@ + command@,
            PowerCliError::BatteryError { message } => "Battery monitoring error: "@ + message@,
            PowerCliError::PowerError { message } => "Power control error: "@ + message@,
            PowerCliError::NfcError { message } => "NFC interface error: "@ + message@,
            PowerCliError::GpioError { message } => "GPIO control error: "@ + message@,
            PowerCliError::FirmwareError { message } => "Firmware error: "@ + message@,
        }
    }

    /// The text that describes the failure to a user.
    pub fn message(&self) -> (r: String)
        ensures
            r@ == self.describe(),
    {
        match self {
            PowerCliError::Serial(m) => String::from_str("Serial communication error: ").concat(
                m.as_str(),
            ),
            PowerCliError::TokioSerial(m) => String::from_str("Async serial error: ").concat(
                m.as_str(),
            ),
            PowerCliError::Io(m) => String::from_str("I/O error: ").concat(m.as_str()),
            PowerCliError::Timeout { timeout } => {
                let digits = format_unsigned(*timeout);
                let number = to_text(digits.as_slice());
                String::from_str("Command timeout after ").concat(number.as_str()).concat("s")
            },
            PowerCliError::InvalidResponse { response } => String::from_str(
                "Invalid response from controller: ",
            ).concat(response.as_str()),
            PowerCliError::ControllerError { message } => String::from_str(
                "Controller error: ",
            ).concat(message.as_str()),
            PowerCliError::Config(m) => String::from_str("Configuration error: ").concat(
                m.as_str(),
            ),
            PowerCliError::Json(m) => String::from_str("JSON parsing error: ").concat(m.as_str()),
            PowerCliError::DeviceNotFound { device } => String::from_str(
                "Device not found: ",
            ).concat(device.as_str()),
            PowerCliError::NotConnected => String::from_str(
                "Connection not established - call connect() first",
            ),
            PowerCliError::InvalidCommand { command } => String::from_str(
                "Invalid command format: ",
            ).concat(command.as_str()),
            PowerCliError::BatteryError { message } => String::from_str(
                "Battery monitoring error: ",
            ).concat(message.as_str()),
            PowerCliError::PowerError { message } => String::from_str(
                "Power control error: ",
            ).concat(message.as_str()),
            PowerCliError::NfcError { message } => String::from_str("NFC interface error: ").concat(
                message.as_str(),
            ),
            PowerCliError::GpioError { message } => String::from_str(
                "GPIO control error: ",
            ).concat(message.as_str()),
            PowerCliError::FirmwareError { message } => String::from_str(
                "Firmware error: ",
            ).concat(message.as_str()),
        }
    }
}

/// The controller marks a rejected command by one of two words in its reply.
pub open spec fn reports_failure(reply: Seq<char>) -> bool {
    contains(reply, "Error:"@) || contains(reply, "Failed:"@)
}

/// Tests whether a cleaned reply reports a failure of the controller.
pub fn is_failure_reply(reply: &str) -> (b: bool)
    ensures
        b == reports_failure(reply@),
{
    let text = to_chars(reply);
    let first = to_chars("Error:");
    let second = to_chars("Failed:");
    includes(text.as_slice(), first.as_slice()) || includes(text.as_slice(), second.as_slice())
}

/// Passes a cleaned reply on unchanged, or turns it into the controller's
/// failure where it reports one.
pub fn check_reply(reply: &str) -> (r: Result<String, PowerCliError>)
    ensures
        reports_failure(reply@) ==> (r matches Err(PowerCliError::ControllerError { message })
            && message@ == reply@),
        !reports_failure(reply@) ==> (r matches Ok(text) && text@ == reply@),
{
    if is_failure_reply(reply) {
        Err(PowerCliError::ControllerError { message: String::from_str(reply) })
    } else {
        Ok(String::from_str(reply))
    }
}

} // verus!
