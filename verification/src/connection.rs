//! The link to the controller, as far as the engine needs to know it: where
//! it leads, how long a command may take, and whether it is open. Commands
//! can be started on an open link only.

use vstd::prelude::*;
use vstd::string::StringExecFns;
use crate::chars::to_chars;
use crate::error::PowerCliError;
use crate::framing::{initial, Exchange, Setup, Timing};
use crate::reply::Terminators;

verus! {

/// A line of text for the controller.
#[derive(Debug, Clone, PartialEq, Eq)]
pub struct Command {
    text: String,
    disruptive: bool,
    timeout_secs: Option<u64>,
}

/// A command is one line: it holds no line break.
pub open spec fn is_one_line(text: Seq<char>) -> bool {
    forall|i: int| 0 <= i < text.len() ==> text[i] != '\n'
}

impl Command {
    /// The line to send.
    pub closed spec fn text(&self) -> Seq<char> {
        self.text@
    }

    /// Whether the command is expected to sever the link.
    pub closed spec fn disruptive(&self) -> bool {
        self.disruptive
    }

    /// The timeout of this command, where it has its own.
    pub closed spec fn timeout(&self) -> Option<u64> {
        self.timeout_secs
    }

    /// A command with the given text. Text that holds a line break is
    /// rejected as an invalid command.
    pub fn new(text: &str) -> (r: Result<Command, PowerCliError>)
        ensures
            is_one_line(text@) ==> (r matches Ok(c) && c.text() == text@ && !c.disruptive()
                && c.timeout() is None),
            !is_one_line(text@) ==> (r matches Err(PowerCliError::InvalidCommand { command })
                && command@ == text@),
    {
        let chars = to_chars(text);
        let mut i: usize = 0;
        while i < chars.len()
            invariant
                i <= chars.len(),
                chars@ == text@,
                forall|j: int| 0 <= j < i ==> chars@[j] != '\n',
            decreases chars.len() - i,
        {
            if chars[i] == '\n' {
                return Err(PowerCliError::InvalidCommand { command: String::from_str(text) });
            }
            i += 1;
        }
        Ok(Command { text: String::from_str(text), disruptive: false, timeout_secs: None })
    }

    /// The same command, marked as one that is expected to sever the link.
    pub fn severing(self) -> (r: Command)
        ensures
            r.text() == self.text(),
            r.disruptive(),
            r.timeout() == self.timeout(),
    {
        Command { text: self.text, disruptive: true, timeout_secs: self.timeout_secs }
    }

    /// The same command with a timeout of its own, in seconds.
    pub fn with_timeout(self, secs: u64) -> (r: Command)
        ensures
            r.text() == self.text(),
            r.disruptive() == self.disruptive(),
            r.timeout() == Some(secs),
    {
        Command { text: self.text, disruptive: self.disruptive, timeout_secs: Some(secs) }
    }

    /// The line to send.
    pub fn line(&self) -> (r: &str)
        ensures
            r@ == self.text(),
    {
        self.text.as_str()
    }

    /// Whether the command is expected to sever the link.
    pub fn is_disruptive(&self) -> (b: bool)
        ensures
            b == self.disruptive(),
    {
        self.disruptive
    }
}

/// What the attempt to open the device came to.
#[derive(Debug, Clone, PartialEq, Eq)]
pub enum Probe {
    /// The device path does not exist.
    Missing,
    /// The path exists, and the system refused to open it, for this reason.
    Refused(String),
    /// The device is open.
    Opened,
}

/// The link to the controller.
#[derive(Debug, Clone, PartialEq, Eq)]
pub struct Connection {
    device_path: String,
    baud_rate: u32,
    timing: Timing,
    open: bool,
}

impl Connection {
    /// The path of the device.
    pub closed spec fn path(&self) -> Seq<char> {
        self.device_path@
    }

    /// The baud rate.
    pub closed spec fn baud(&self) -> u32 {
        self.baud_rate
    }

    /// The overall command timeout, in seconds.
    pub open spec fn timeout(&self) -> u64 {
        self.windows().timeout_secs
    }

    /// The time windows of the engine on this link.
    pub closed spec fn windows(&self) -> Timing {
        self.timing
    }

    /// Whether the link is open.
    pub closed spec fn is_open(&self) -> bool {
        self.open
    }

    /// A closed link to the given device, with the customary windows around a
    /// timeout of three seconds.
    pub fn new(device_path: &str, baud_rate: u32) -> (r: Result<Connection, PowerCliError>)
        ensures
            r matches Ok(c) && c.path() == device_path@ && c.baud() == baud_rate && c.windows()
                == (Timing {
                timeout_secs: 3,
                idle_ms: 500,
                drain_ms: 100,
                settle_ms: 200,
                disruptive_ms: 500,
                poll_ms: 100,
            }) && !c.is_open(),
    {
        Ok(
            Connection {
                device_path: String::from_str(device_path),
                baud_rate,
                timing: Timing::standard(3),
                open: false,
            },
        )
    }

    /// Sets the overall command timeout, in seconds.
    pub fn set_timeout(&mut self, timeout_secs: u64)
        ensures
            final(self).windows() == (Timing { timeout_secs, ..old(self).windows() }),
            final(self).path() == old(self).path(),
            final(self).baud() == old(self).baud(),
            final(self).is_open() == old(self).is_open(),
    {
        self.timing.timeout_secs = timeout_secs;
    }

    /// Sets all time windows of the engine on this link.
    pub fn set_timing(&mut self, timing: Timing)
        ensures
            final(self).windows() == timing,
            final(self).path() == old(self).path(),
            final(self).baud() == old(self).baud(),
            final(self).is_open() == old(self).is_open(),
    {
        self.timing = timing;
    }

    /// The path of the device.
    pub fn device_path(&self) -> (r: &str)
        ensures
            r@ == self.path(),
    {
        self.device_path.as_str()
    }

    /// The baud rate.
    pub fn baud_rate(&self) -> (r: u32)
        ensures
            r == self.baud(),
    {
        self.baud_rate
    }

    /// The overall command timeout, in seconds.
    pub fn timeout_secs(&self) -> (r: u64)
        ensures
            r == self.timeout(),
    {
        self.timing.timeout_secs
    }

    /// Records what the attempt to open the device came to. A missing path is
    /// `DeviceNotFound`, a refusal by the system is an I/O failure that
    /// carries the system's reason, and either leaves the link as it was.
    pub fn connect(&mut self, probe: Probe) -> (r: Result<(), PowerCliError>)
        ensures
            final(self).path() == old(self).path(),
            final(self).baud() == old(self).baud(),
            final(self).windows() == old(self).windows(),
            match probe {
                Probe::Missing => final(self).is_open() == old(self).is_open() && (
                r matches Err(PowerCliError::DeviceNotFound { device }) && device@ == old(
                    self,
                ).path()),
                Probe::Refused(why) => final(self).is_open() == old(self).is_open() && (
                r matches Err(PowerCliError::Io(text)) && text@ == why@),
                Probe::Opened => final(self).is_open() && r is Ok,
            },
    {
        match probe {
            Probe::Missing => Err(
                PowerCliError::DeviceNotFound { device: self.device_path.clone() },
            ),
            Probe::Refused(why) => Err(PowerCliError::Io(why)),
            Probe::Opened => {
                self.open = true;
                Ok(())
            },
        }
    }

    /// Whether the link is open.
    pub fn is_connected(&self) -> (b: bool)
        ensures
            b == self.is_open(),
    {
        self.open
    }

    /// Closes the link.
    pub fn disconnect(&mut self)
        ensures
            !final(self).is_open(),
            final(self).path() == old(self).path(),
            final(self).baud() == old(self).baud(),
            final(self).windows() == old(self).windows(),
    {
        self.open = false;
    }

    /// The windows of a round-trip for `command` on this link: the link's,
    /// with the command's own timeout where it has one.
    pub open spec fn timing_for(&self, command: &Command) -> Timing {
        Timing {
            timeout_secs: match command.timeout() {
                Some(secs) => secs,
                None => self.timeout(),
            },
            ..self.windows()
        }
    }

    /// Starts the round-trip of a command at time `now_ms`. On a closed link
    /// this fails with `NotConnected`, and no round-trip exists that could
    /// ask for anything to be written.
    pub fn send_command(&self, command: &Command, terminators: Terminators, now_ms: u64) -> (r:
        Result<Exchange, PowerCliError>)
        ensures
            !self.is_open() ==> r == Err::<Exchange, PowerCliError>(PowerCliError::NotConnected),
            self.is_open() ==> (r matches Ok(x) && x.model() == initial(now_ms) && x.setup() == (
            Setup {
                command: command.text(),
                disruptive: command.disruptive(),
                timing: self.timing_for(command),
                terminators: terminators@,
            })),
    {
        if !self.open {
            return Err(PowerCliError::NotConnected);
        }
        let mut timing = self.timing;
        match command.timeout_secs {
            Some(secs) => {
                timing.timeout_secs = secs;
            },
            None => {},
        }
        Ok(
            Exchange::start(
                command.text.as_str(),
                command.disruptive,
                timing,
                terminators,
                now_ms,
            ),
        )
    }
}

} // verus!
