//! The command lines of the controller's protocol, and what becomes of a
//! finished round-trip.

use vstd::prelude::*;
use vstd::string::StringExecFns;
use crate::chars::same_text;
use crate::cli::{join_number, join_word, with_number, with_word, BoardCommands, Commands};
use crate::connection::{is_one_line, Command, Connection};
use crate::error::{check_reply, reports_failure, PowerCliError};
use crate::framing::{initial, is_outcome, run, Exchange, Incoming, Reply, Setup};
use crate::json::classified;
use crate::reply::Terminators;

verus! {

/// Measurements of the battery.
#[derive(Debug, Clone, Copy, PartialEq, Eq, Structural)]
pub struct BatteryData {
    pub voltage_mv: u16,
    pub current_ma: i16,
    pub charge_mah: u32,
    pub temperature_c: i16,
}

/// What a board reset is answered with, whatever the board still sent.
pub const BOARD_RESET_NOTICE: &'static str =
    "Board reset sequence initiated. Connection will be lost during power cycle.";

/// The protocol on one link.
#[derive(Debug, Clone, PartialEq, Eq)]
pub struct Protocol {
    pub connection: Connection,
}

/// `r` is what the attempt to start a round-trip for `line` on `link` gives:
/// a line that holds a line break is an invalid command; on a closed link
/// the attempt fails as not connected; else the round-trip stands at its
/// beginning.
pub open spec fn is_started(
    link: Connection,
    line: Seq<char>,
    disruptive: bool,
    terms: Seq<Seq<char>>,
    now: u64,
    r: Result<Exchange, PowerCliError>,
) -> bool {
    if !is_one_line(line) {
        r matches Err(PowerCliError::InvalidCommand { command }) && command@ == line
    } else if !link.is_open() {
        r == Err::<Exchange, PowerCliError>(PowerCliError::NotConnected)
    } else {
        r matches Ok(x) && x.model() == initial(now) && x.setup() == (Setup {
            command: line,
            disruptive,
            timing: link.windows(),
            terminators: terms,
        })
    }
}

/// The line of a GPIO request, or the message that says why there is none.
pub open spec fn gpio_request(action: Seq<char>, port: Seq<char>, pin: u8, value: Option<u8>) -> Result<
    Seq<char>,
    Seq<char>,
> {
    if action == "get"@ {
        Ok(with_number(with_word("gpio get"@, port), pin as nat))
    } else if action == "set"@ {
        match value {
            Some(v) => Ok(
                with_number(with_number(with_word("gpio set"@, port), pin as nat), v as nat),
            ),
            None => Err("GPIO set requires a value"@),
        }
    } else {
        Err("Unknown GPIO action: "@ + action)
    }
}

/// What the caller gets from a finished round-trip: its failure; or the text
/// of the reply to a disruptive command, as it is; or else the cleaned text,
/// unless it reports a failure of the controller.
pub open spec fn is_conclusion(
    outcome: Result<Reply, PowerCliError>,
    disruptive: bool,
    r: Result<String, PowerCliError>,
) -> bool {
    match outcome {
        Err(e) => r == Err::<String, PowerCliError>(e),
        Ok(reply) => if !disruptive && reports_failure(reply.text@) {
            r matches Err(PowerCliError::ControllerError { message }) && message@ == reply.text@
        } else {
            r matches Ok(text) && text@ == reply.text@
        },
    }
}

/// The text that is shown for the reply to a command: the notice for a reset
/// of the board, whatever still arrived, and the reply for every other
/// command.
pub open spec fn shown_text(command: Commands, reply: Seq<char>) -> Seq<char> {
    match command {
        Commands::Board(BoardCommands::Reset) => BOARD_RESET_NOTICE@,
        _ => reply,
    }
}

/// What the caller gets for a command from its finished round-trip: the
/// conclusion of the round-trip, and in place of a reply the text shown for
/// the command.
pub open spec fn is_answer(
    command: Commands,
    outcome: Result<Reply, PowerCliError>,
    r: Result<String, PowerCliError>,
) -> bool {
    match outcome {
        Err(e) => r == Err::<String, PowerCliError>(e),
        Ok(reply) => if !command.spec_severs_link() && reports_failure(reply.text@) {
            r matches Err(PowerCliError::ControllerError { message }) && message@ == reply.text@
        } else {
            r matches Ok(text) && text@ == shown_text(command, reply.text@)
        },
    }
}

impl Protocol {
    /// The protocol on the given link.
    pub fn new(connection: Connection) -> (r: Protocol)
        ensures
            r.connection == connection,
    {
        Protocol { connection }
    }

    /// Starts the round-trip of one line.
    pub fn begin(&self, line: &str, disruptive: bool, terminators: Terminators, now_ms: u64) -> (r:
        Result<Exchange, PowerCliError>)
        ensures
            is_started(self.connection, line@, disruptive, terminators@, now_ms, r),
    {
        match Command::new(line) {
            Err(e) => Err(e),
            Ok(command) => {
                let command = if disruptive {
                    command.severing()
                } else {
                    command
                };
                self.connection.send_command(&command, terminators, now_ms)
            },
        }
    }

    /// Starts the round-trip of a command of the client, as a disruptive one
    /// where it is expected to sever the link. Nothing is started for the
    /// commands that are not sent to the controller as one line.
    pub fn execute(&self, command: &Commands, terminators: Terminators, now_ms: u64) -> (r: Option<
        Result<Exchange, PowerCliError>,
    >)
        ensures
            match command.spec_line() {
                Some(line) => r matches Some(started) && is_started(
                    self.connection,
                    line,
                    command.spec_severs_link(),
                    terminators@,
                    now_ms,
                    started,
                ),
                None => r is None,
            },
    {
        match command.line() {
            Some(line) => Some(
                self.begin(line.as_str(), command.severs_link(), terminators, now_ms),
            ),
            None => None,
        }
    }

    /// Starts a command that is sent as it is.
    pub fn execute_system_command(&self, command: &str, terminators: Terminators, now_ms: u64) -> (r:
        Result<Exchange, PowerCliError>)
        ensures
            is_started(self.connection, command@, false, terminators@, now_ms, r),
    {
        self.begin(command, false, terminators, now_ms)
    }

    /// Starts `power <rail> <state>`.
    pub fn execute_power_command(
        &self,
        rail: &str,
        state: &str,
        terminators: Terminators,
        now_ms: u64,
    ) -> (r: Result<Exchange, PowerCliError>)
        ensures
            is_started(
                self.connection,
                with_word(with_word("power"@, rail@), state@),
                false,
                terminators@,
                now_ms,
                r,
            ),
    {
        let head = join_word("power", rail);
        let line = join_word(head.as_str(), state);
        self.begin(line.as_str(), false, terminators, now_ms)
    }

    /// Starts `ltc2959 <command>` for the battery monitor.
    pub fn execute_battery_command(&self, command: &str, terminators: Terminators, now_ms: u64) -> (r:
        Result<Exchange, PowerCliError>)
        ensures
            is_started(
                self.connection,
                with_word("ltc2959"@, command@),
                false,
                terminators@,
                now_ms,
                r,
            ),
    {
        let line = join_word("ltc2959", command);
        self.begin(line.as_str(), false, terminators, now_ms)
    }

    /// The line of a GPIO request. `set` needs a value, and no action but
    /// `get` and `set` is known.
    pub fn gpio_line(action: &str, port: &str, pin: u8, value: Option<u8>) -> (r: Result<
        String,
        PowerCliError,
    >)
        ensures
            match gpio_request(action@, port@, pin, value) {
                Ok(text) => r matches Ok(line) && line@ == text,
                Err(why) => r matches Err(PowerCliError::InvalidCommand { command }) && command@
                    == why,
            },
    {
        if same_text(action, "get") {
            let head = join_word("gpio get", port);
            Ok(join_number(head.as_str(), pin as u64))
        } else if same_text(action, "set") {
            match value {
                Some(v) => {
                    let head = join_word("gpio set", port);
                    let mid = join_number(head.as_str(), pin as u64);
                    Ok(join_number(mid.as_str(), v as u64))
                },
                None => Err(
                    PowerCliError::InvalidCommand {
                        command: String::from_str("GPIO set requires a value"),
                    },
                ),
            }
        } else {
            Err(
                PowerCliError::InvalidCommand {
                    command: String::from_str("Unknown GPIO action: ").concat(action),
                },
            )
        }
    }

    /// Starts a GPIO request. A request without a line fails before anything
    /// is asked of the link.
    pub fn execute_gpio_command(
        &self,
        action: &str,
        port: &str,
        pin: u8,
        value: Option<u8>,
        terminators: Terminators,
        now_ms: u64,
    ) -> (r: Result<Exchange, PowerCliError>)
        ensures
            match gpio_request(action@, port@, pin, value) {
                Ok(text) => is_started(self.connection, text, false, terminators@, now_ms, r),
                Err(why) => r matches Err(PowerCliError::InvalidCommand { command }) && command@
                    == why,
            },
    {
        match Self::gpio_line(action, port, pin, value) {
            Ok(line) => self.begin(line.as_str(), false, terminators, now_ms),
            Err(e) => Err(e),
        }
    }

    /// Starts `nfc <command>`.
    pub fn execute_nfc_command(&self, command: &str, terminators: Terminators, now_ms: u64) -> (r:
        Result<Exchange, PowerCliError>)
        ensures
            is_started(
                self.connection,
                with_word("nfc"@, command@),
                false,
                terminators@,
                now_ms,
                r,
            ),
    {
        let line = join_word("nfc", command);
        self.begin(line.as_str(), false, terminators, now_ms)
    }

    /// Starts `board <command>`. A reset severs the link and is sent as a
    /// disruptive command.
    pub fn execute_board_command(&self, command: &str, terminators: Terminators, now_ms: u64) -> (r:
        Result<Exchange, PowerCliError>)
        ensures
            is_started(
                self.connection,
                with_word("board"@, command@),
                command@ == "reset"@,
                terminators@,
                now_ms,
                r,
            ),
    {
        let line = join_word("board", command);
        let disruptive = same_text(command, "reset");
        self.begin(line.as_str(), disruptive, terminators, now_ms)
    }

    /// Starts `ltc2959 <command>`.
    pub fn execute_ltc2959_command(&self, command: &str, terminators: Terminators, now_ms: u64) -> (r:
        Result<Exchange, PowerCliError>)
        ensures
            is_started(
                self.connection,
                with_word("ltc2959"@, command@),
                false,
                terminators@,
                now_ms,
                r,
            ),
    {
        let line = join_word("ltc2959", command);
        self.begin(line.as_str(), false, terminators, now_ms)
    }

    /// Starts `pm <command>`.
    pub fn execute_pm_command(&self, command: &str, terminators: Terminators, now_ms: u64) -> (r:
        Result<Exchange, PowerCliError>)
        ensures
            is_started(self.connection, with_word("pm"@, command@), false, terminators@, now_ms, r),
    {
        let line = join_word("pm", command);
        self.begin(line.as_str(), false, terminators, now_ms)
    }

    /// Passes a reply on, or reports the failure that it holds.
    pub fn parse_response(response: &str) -> (r: Result<String, PowerCliError>)
        ensures
            reports_failure(response@) ==> (r matches Err(
                PowerCliError::ControllerError { message },
            ) && message@ == response@),
            !reports_failure(response@) ==> (r matches Ok(text) && text@ == response@),
    {
        check_reply(response)
    }

    /// What the caller gets for a command from its finished round-trip.
    pub fn answer(command: &Commands, outcome: Result<Reply, PowerCliError>) -> (r: Result<
        String,
        PowerCliError,
    >)
        ensures
            is_answer(*command, outcome, r),
    {
        match Self::conclude(outcome, command.severs_link()) {
            Err(e) => Err(e),
            Ok(text) => match command {
                Commands::Board(BoardCommands::Reset) => Ok(String::from_str(BOARD_RESET_NOTICE)),
                _ => Ok(text),
            },
        }
    }

    /// What the caller gets from a finished round-trip.
    pub fn conclude(outcome: Result<Reply, PowerCliError>, disruptive: bool) -> (r: Result<
        String,
        PowerCliError,
    >)
        ensures
            is_conclusion(outcome, disruptive, r),
    {
        match outcome {
            Err(e) => Err(e),
            Ok(reply) => if disruptive {
                Ok(reply.text)
            } else {
                check_reply(reply.text.as_str())
            },
        }
    }
}

/// A command that is sent twice and meets the same events both times gives
/// the same reply and the same record both times.
pub proof fn lemma_repeated_command_same_record(
    s: Setup,
    started: u64,
    events: Seq<(Incoming, u64)>,
    first: Reply,
    second: Reply,
)
    requires
        is_outcome(s, run(s, initial(started), events), Some(Ok(first))),
        is_outcome(s, run(s, initial(started), events), Some(Ok(second))),
    ensures
        first.text@ == second.text@,
        first.raw@ == second.raw@,
        first.terminated == second.terminated,
        first.idle_ms == second.idle_ms,
        first.exit == second.exit,
        classified(s.command, first.text@) == classified(s.command, second.text@),
{
}

} // verus!
