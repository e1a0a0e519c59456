//! The commands of the client and the words that each puts on the wire.

use vstd::prelude::*;
use vstd::string::StringExecFns;
use crate::chars::{decimal_text, format_unsigned, to_text};
use crate::connection::Connection;
use crate::error::PowerCliError;
use crate::framing::Timing;

verus! {

/// How results are shown.
#[derive(Debug, Clone, Copy, PartialEq, Eq, Structural)]
pub enum OutputFormat {
    Human,
    Json,
    Csv,
}

/// The settings of one invocation.
#[derive(Debug, Clone, PartialEq, Eq)]
pub struct Cli {
    /// Serial device path.
    pub device: String,
    /// Baud rate.
    pub baud: u32,
    /// Command timeout in seconds.
    pub timeout: u64,
    /// Output format.
    pub format: OutputFormat,
    /// Configuration file path.
    pub config: Option<String>,
    /// Verbose logging.
    pub verbose: bool,
    /// No output but errors.
    pub quiet: bool,
    /// The command to run.
    pub command: Option<Commands>,
}

/// Every command.
#[derive(Debug, Clone, PartialEq, Eq)]
pub enum Commands {
    System(SystemCommands),
    Power(PowerCommands),
    Battery(BatteryCommands),
    Gpio(GpioCommands),
    Nfc(NfcCommands),
    Board(BoardCommands),
    Ltc2959(Ltc2959Commands),
    Pm(PowerManagementCommands),
    Rtc(RtcCommands),
    Firmware(FirmwareCommands),
    Comm(CommCommands),
    Ping,
    Version,
    Monitor { interval: u64, continuous: bool },
    Batch { file: String },
}

/// System-level commands.
#[derive(Debug, Clone, PartialEq, Eq)]
pub enum SystemCommands {
    Info,
    Reboot { cold: bool },
    Uptime,
    DfuMode { timeout: u8 },
    Erase(EraseCommands),
}

/// Power rail commands.
#[derive(Debug, Clone, PartialEq, Eq)]
pub enum PowerCommands {
    Pmic { state: PowerState },
    Wifi { state: PowerState },
    Disp { state: PowerState },
    Stats,
    Coulomb,
}

/// Battery monitoring commands.
#[derive(Debug, Clone, Copy, PartialEq, Eq, Structural)]
pub enum BatteryCommands {
    Read,
    Status,
    Enable,
    Disable,
}

/// GPIO commands.
#[derive(Debug, Clone, PartialEq, Eq)]
pub enum GpioCommands {
    Get { port: String, pin: u8 },
    SetPin { port: String, pin: u8, value: u8 },
    Config { port: String, pin: u8, mode: String },
}

/// NFC commands.
#[derive(Debug, Clone, Copy, PartialEq, Eq, Structural)]
pub enum NfcCommands {
    Scan,
    Status,
    Init,
    Debug,
    Rfdbg,
    Ed,
    Enable,
    Disable,
    Reset,
    Info,
    FieldDetect,
}

/// Power-management commands.
#[derive(Debug, Clone, PartialEq, Eq)]
pub enum PowerManagementCommands {
    Stats,
    Sleep {
        time: Option<String>,
        pmic: bool,
        wifi: bool,
        disp: bool,
        alloff: bool,
        vlls0: bool,
        vlls1: bool,
        vlls2: bool,
        vlls3: bool,
    },
    Wake,
    Measure,
    Monitor { action: MonitorAction, interval: Option<u64> },
    All { state: PowerState },
    Pmic { state: PowerState },
    Wifi { state: PowerState },
    Disp { state: PowerState },
    Defaults(DefaultsCommands),
    Ltc2959 { action: DeviceAction },
    Nfc { action: DeviceAction },
    BatteryCheck,
    Imx93 { state: PowerState },
}

/// Board commands.
#[derive(Debug, Clone, Copy, PartialEq, Eq, Structural)]
pub enum BoardCommands {
    Reset,
    Shutdown,
}

/// Coulomb-counter commands.
#[derive(Debug, Clone, PartialEq, Eq)]
pub enum Ltc2959Commands {
    Init,
    Read,
    Status,
    Enable,
    Disable,
    Scan,
    SetCharge { charge: u32 },
    ChargeComplete,
    CcGpio { state: PowerState },
    ProductionReset,
    AdcMode { mode: u8 },
    RegRead { address: String },
    RegWrite { address: String, value: String },
}

/// Firmware commands.
#[derive(Debug, Clone, PartialEq, Eq)]
pub enum FirmwareCommands {
    List,
    Upload { file: String, skip_reset: bool, port: Option<String>, baud: Option<u32> },
    Reset,
    Info,
}

/// The states that a power rail can be asked for.
#[derive(Debug, Clone, Copy, PartialEq, Eq, Structural)]
pub enum PowerState {
    On,
    Off,
    Status,
}

/// Starting and stopping the monitor.
#[derive(Debug, Clone, Copy, PartialEq, Eq, Structural)]
pub enum MonitorAction {
    Start,
    Stop,
}

/// Real-time clock commands.
#[derive(Debug, Clone, Copy, PartialEq, Eq, Structural)]
pub enum RtcCommands {
    Status,
    Get,
    Config { action: ExternalRtcAction },
    Show,
}

/// What an interrupt of the external clock does.
#[derive(Debug, Clone, Copy, PartialEq, Eq, Structural)]
pub enum ExternalRtcAction {
    NoAction,
    Wake,
    Auto,
}

/// What to erase.
#[derive(Debug, Clone, Copy, PartialEq, Eq, Structural)]
pub enum EraseCommands {
    App,
    Defaults,
}

/// Power rail defaults.
#[derive(Debug, Clone, Copy, PartialEq, Eq, Structural)]
pub enum DefaultsCommands {
    Show,
    Save,
    Pmic { state: PowerState },
    Wifi { state: PowerState },
    Disp { state: PowerState },
}

/// Waking a device or putting it to sleep.
#[derive(Debug, Clone, Copy, PartialEq, Eq, Structural)]
pub enum DeviceAction {
    Wake,
    Sleep,
}

/// Host wake signals.
#[derive(Debug, Clone, Copy, PartialEq, Eq, Structural)]
pub enum CommCommands {
    BtWake { state: PowerState },
    WlWake { state: PowerState },
}

impl Cli {
    /// The closed link that the settings describe: to the device, at the
    /// baud rate, with the customary windows around the timeout.
    pub fn connection(&self) -> (r: Result<Connection, PowerCliError>)
        ensures
            r matches Ok(c) && c.path() == self.device@ && c.baud() == self.baud && c.windows()
                == (Timing {
                timeout_secs: self.timeout,
                idle_ms: 500,
                drain_ms: 100,
                settle_ms: 200,
                disruptive_ms: 500,
                poll_ms: 100,
            }) && !c.is_open(),
    {
        match Connection::new(self.device.as_str(), self.baud) {
            Ok(mut c) => {
                c.set_timeout(self.timeout);
                Ok(c)
            },
            Err(e) => Err(e),
        }
    }
}

impl PowerState {
    /// The word for the state on the wire.
    pub open spec fn spec_word(self) -> Seq<char> {
        match self {
            PowerState::On => "on"@,
            PowerState::Off => "off"@,
            PowerState::Status => "status"@,
        }
    }

    /// The word for the state on the wire.
    pub fn word(self) -> (r: &'static str)
        ensures
            r@ == self.spec_word(),
    {
        match self {
            PowerState::On => "on",
            PowerState::Off => "off",
            PowerState::Status => "status",
        }
    }
}

impl DeviceAction {
    /// The word for the action on the wire.
    pub open spec fn spec_word(self) -> Seq<char> {
        match self {
            DeviceAction::Wake => "wake"@,
            DeviceAction::Sleep => "sleep"@,
        }
    }

    /// The word for the action on the wire.
    pub fn word(self) -> (r: &'static str)
        ensures
            r@ == self.spec_word(),
    {
        match self {
            DeviceAction::Wake => "wake",
            DeviceAction::Sleep => "sleep",
        }
    }
}

impl ExternalRtcAction {
    /// The word for the action on the wire.
    pub open spec fn spec_word(self) -> Seq<char> {
        match self {
            ExternalRtcAction::NoAction => "none"@,
            ExternalRtcAction::Wake => "wake"@,
            ExternalRtcAction::Auto => "auto"@,
        }
    }

    /// The word for the action on the wire.
    pub fn word(self) -> (r: &'static str)
        ensures
            r@ == self.spec_word(),
    {
        match self {
            ExternalRtcAction::NoAction => "none",
            ExternalRtcAction::Wake => "wake",
            ExternalRtcAction::Auto => "auto",
        }
    }
}

/// `head`, a space, and `n` in base ten.
pub open spec fn with_number(head: Seq<char>, n: nat) -> Seq<char> {
    head + " "@ + decimal_text(n)
}

/// `head`, a space, and `tail`.
pub open spec fn with_word(head: Seq<char>, tail: Seq<char>) -> Seq<char> {
    head + " "@ + tail
}

/// Joins a word and a number by a space.
pub fn join_number(head: &str, n: u64) -> (r: String)
    ensures
        r@ == with_number(head@, n as nat),
{
    let digits = format_unsigned(n);
    let number = to_text(digits.as_slice());
    String::from_str(head).concat(" ").concat(number.as_str())
}

/// Joins two words by a space.
pub fn join_word(head: &str, tail: &str) -> (r: String)
    ensures
        r@ == with_word(head@, tail@),
{
    String::from_str(head).concat(" ").concat(tail)
}

impl NfcCommands {
    /// The word that follows `nfc` on the wire.
    pub open spec fn spec_argument(self) -> Seq<char> {
        match self {
            NfcCommands::Scan => "scan"@,
            NfcCommands::Status => "status"@,
            NfcCommands::Init => "init"@,
            NfcCommands::Debug => "debug"@,
            NfcCommands::Rfdbg => "rfdbg"@,
            NfcCommands::Ed => "ed"@,
            NfcCommands::Enable => "enable"@,
            NfcCommands::Disable => "disable"@,
            NfcCommands::Reset => "reset"@,
            NfcCommands::Info => "info"@,
            NfcCommands::FieldDetect => "field_detect"@,
        }
    }

    /// The word that follows `nfc` on the wire.
    pub fn argument(self) -> (r: &'static str)
        ensures
            r@ == self.spec_argument(),
    {
        match self {
            NfcCommands::Scan => "scan",
            NfcCommands::Status => "status",
            NfcCommands::Init => "init",
            NfcCommands::Debug => "debug",
            NfcCommands::Rfdbg => "rfdbg",
            NfcCommands::Ed => "ed",
            NfcCommands::Enable => "enable",
            NfcCommands::Disable => "disable",
            NfcCommands::Reset => "reset",
            NfcCommands::Info => "info",
            NfcCommands::FieldDetect => "field_detect",
        }
    }
}

impl Ltc2959Commands {
    /// The words that follow `ltc2959` on the wire.
    pub open spec fn spec_argument(&self) -> Seq<char> {
        match self {
            Ltc2959Commands::Init => "init"@,
            Ltc2959Commands::Read => "read"@,
            Ltc2959Commands::Status => "status"@,
            Ltc2959Commands::Enable => "enable"@,
            Ltc2959Commands::Disable => "disable"@,
            Ltc2959Commands::Scan => "scan"@,
            Ltc2959Commands::SetCharge { charge } => with_number("set_charge"@, *charge as nat),
            Ltc2959Commands::ChargeComplete => "charge_complete"@,
            Ltc2959Commands::CcGpio { state } => with_word("cc_gpio"@, state.spec_word()),
            Ltc2959Commands::ProductionReset => "production_reset"@,
            Ltc2959Commands::AdcMode { mode } => with_number("adc_mode"@, *mode as nat),
            Ltc2959Commands::RegRead { address } => with_word("reg_read"@, address@),
            Ltc2959Commands::RegWrite { address, value } => with_word(
                with_word("reg_write"@, address@),
                value@,
            ),
        }
    }

    /// The words that follow `ltc2959` on the wire.
    pub fn argument(&self) -> (r: String)
        ensures
            r@ == self.spec_argument(),
    {
        match self {
            Ltc2959Commands::Init => String::from_str("init"),
            Ltc2959Commands::Read => String::from_str("read"),
            Ltc2959Commands::Status => String::from_str("status"),
            Ltc2959Commands::Enable => String::from_str("enable"),
            Ltc2959Commands::Disable => String::from_str("disable"),
            Ltc2959Commands::Scan => String::from_str("scan"),
            Ltc2959Commands::SetCharge { charge } => join_number("set_charge", *charge as u64),
            Ltc2959Commands::ChargeComplete => String::from_str("charge_complete"),
            Ltc2959Commands::CcGpio { state } => join_word("cc_gpio", state.word()),
            Ltc2959Commands::ProductionReset => String::from_str("production_reset"),
            Ltc2959Commands::AdcMode { mode } => join_number("adc_mode", *mode as u64),
            Ltc2959Commands::RegRead { address } => join_word("reg_read", address.as_str()),
            Ltc2959Commands::RegWrite { address, value } => {
                let head = join_word("reg_write", address.as_str());
                join_word(head.as_str(), value.as_str())
            },
        }
    }
}

impl DefaultsCommands {
    /// The words that follow `pm` on the wire.
    pub open spec fn spec_argument(self) -> Seq<char> {
        match self {
            DefaultsCommands::Show => "defaults"@,
            DefaultsCommands::Save => "defaults save"@,
            DefaultsCommands::Pmic { state } => with_word("defaults pmic"@, state.spec_word()),
            DefaultsCommands::Wifi { state } => with_word("defaults wifi"@, state.spec_word()),
            DefaultsCommands::Disp { state } => with_word("defaults disp"@, state.spec_word()),
        }
    }

    /// The words that follow `pm` on the wire.
    pub fn argument(self) -> (r: String)
        ensures
            r@ == self.spec_argument(),
    {
        match self {
            DefaultsCommands::Show => String::from_str("defaults"),
            DefaultsCommands::Save => String::from_str("defaults save"),
            DefaultsCommands::Pmic { state } => join_word("defaults pmic", state.word()),
            DefaultsCommands::Wifi { state } => join_word("defaults wifi", state.word()),
            DefaultsCommands::Disp { state } => join_word("defaults disp", state.word()),
        }
    }
}

/// `head`, and after it a space and `flag` where `on` holds.
pub open spec fn with_flag(head: Seq<char>, on: bool, flag: Seq<char>) -> Seq<char> {
    if on {
        with_word(head, flag)
    } else {
        head
    }
}

fn push_flag(head: String, on: bool, flag: &str) -> (r: String)
    ensures
        r@ == with_flag(head@, on, flag@),
{
    if on {
        join_word(head.as_str(), flag)
    } else {
        head
    }
}

/// The words of a sleep request: `sleep`, the duration where one is given,
/// and one option for each switch that is set, in a fixed order.
pub open spec fn sleep_words(
    time: Option<Seq<char>>,
    pmic: bool,
    wifi: bool,
    disp: bool,
    alloff: bool,
    vlls0: bool,
    vlls1: bool,
    vlls2: bool,
    vlls3: bool,
) -> Seq<char> {
    let a = match time {
        Some(t) => with_word("sleep"@, t),
        None => "sleep"@,
    };
    let b = with_flag(a, pmic, "--pmic"@);
    let c = with_flag(b, wifi, "--wifi"@);
    let d = with_flag(c, disp, "--disp"@);
    let e = with_flag(d, alloff, "--alloff"@);
    let f = with_flag(e, vlls0, "--vlls0"@);
    let g = with_flag(f, vlls1, "--vlls1"@);
    let h = with_flag(g, vlls2, "--vlls2"@);
    with_flag(h, vlls3, "--vlls3"@)
}

impl PowerManagementCommands {
    /// The words that follow `pm` on the wire.
    pub open spec fn spec_argument(&self) -> Seq<char> {
        match self {
            PowerManagementCommands::Stats => "stats"@,
            PowerManagementCommands::Sleep {
                time,
                pmic,
                wifi,
                disp,
                alloff,
                vlls0,
                vlls1,
                vlls2,
                vlls3,
            } => sleep_words(
                match time {
                    Some(t) => Some(t@),
                    None => None,
                },
                *pmic,
                *wifi,
                *disp,
                *alloff,
                *vlls0,
                *vlls1,
                *vlls2,
                *vlls3,
            ),
            PowerManagementCommands::Wake => "wake"@,
            PowerManagementCommands::Measure => "measure"@,
            PowerManagementCommands::Monitor { action, interval } => match action {
                MonitorAction::Start => match interval {
                    Some(n) => with_number("monitor start"@, *n as nat),
                    None => "monitor start"@,
                },
                MonitorAction::Stop => "monitor stop"@,
            },
            PowerManagementCommands::All { state } => with_word("all"@, state.spec_word()),
            PowerManagementCommands::Pmic { state } => with_word("pmic"@, state.spec_word()),
            PowerManagementCommands::Wifi { state } => with_word("wifi"@, state.spec_word()),
            PowerManagementCommands::Disp { state } => with_word("disp"@, state.spec_word()),
            PowerManagementCommands::Defaults(d) => d.spec_argument(),
            PowerManagementCommands::Ltc2959 { action } => with_word(
                "ltc2959"@,
                action.spec_word(),
            ),
            PowerManagementCommands::Nfc { action } => with_word("nfc"@, action.spec_word()),
            PowerManagementCommands::BatteryCheck => "battery_check"@,
            PowerManagementCommands::Imx93 { state } => with_word("imx93"@, state.spec_word()),
        }
    }

    /// The words that follow `pm` on the wire.
    pub fn argument(&self) -> (r: String)
        ensures
            r@ == self.spec_argument(),
    {
        match self {
            PowerManagementCommands::Stats => String::from_str("stats"),
            PowerManagementCommands::Sleep {
                time,
                pmic,
                wifi,
                disp,
                alloff,
                vlls0,
                vlls1,
                vlls2,
                vlls3,
            } => {
                let a = match time {
                    Some(t) => join_word("sleep", t.as_str()),
                    None => String::from_str("sleep"),
                };
                let b = push_flag(a, *pmic, "--pmic");
                let c = push_flag(b, *wifi, "--wifi");
                let d = push_flag(c, *disp, "--disp");
                let e = push_flag(d, *alloff, "--alloff");
                let f = push_flag(e, *vlls0, "--vlls0");
                let g = push_flag(f, *vlls1, "--vlls1");
                let h = push_flag(g, *vlls2, "--vlls2");
                push_flag(h, *vlls3, "--vlls3")
            },
            PowerManagementCommands::Wake => String::from_str("wake"),
            PowerManagementCommands::Measure => String::from_str("measure"),
            PowerManagementCommands::Monitor { action, interval } => match action {
                MonitorAction::Start => match interval {
                    Some(n) => join_number("monitor start", *n),
                    None => String::from_str("monitor start"),
                },
                MonitorAction::Stop => String::from_str("monitor stop"),
            },
            PowerManagementCommands::All { state } => join_word("all", state.word()),
            PowerManagementCommands::Pmic { state } => join_word("pmic", state.word()),
            PowerManagementCommands::Wifi { state } => join_word("wifi", state.word()),
            PowerManagementCommands::Disp { state } => join_word("disp", state.word()),
            PowerManagementCommands::Defaults(d) => d.argument(),
            PowerManagementCommands::Ltc2959 { action } => join_word("ltc2959", action.word()),
            PowerManagementCommands::Nfc { action } => join_word("nfc", action.word()),
            PowerManagementCommands::BatteryCheck => String::from_str("battery_check"),
            PowerManagementCommands::Imx93 { state } => join_word("imx93", state.word()),
        }
    }
}

impl SystemCommands {
    /// The words of the commands that are sent as power-management requests;
    /// nothing for `Info` and `Uptime`, which are not.
    pub open spec fn spec_argument(self) -> Option<Seq<char>> {
        match self {
            SystemCommands::Info => None,
            SystemCommands::Uptime => None,
            SystemCommands::Reboot { cold } => Some(
                if cold {
                    "system reset cold"@
                } else {
                    "system reset"@
                },
            ),
            SystemCommands::DfuMode { timeout } => Some(
                with_number("system dfu-mode"@, timeout as nat),
            ),
            SystemCommands::Erase(EraseCommands::App) => Some("system erase app"@),
            SystemCommands::Erase(EraseCommands::Defaults) => Some("system erase defaults"@),
        }
    }

    /// The words of the commands that are sent as power-management requests.
    pub fn argument(&self) -> (r: Option<String>)
        ensures
            r is Some <==> self.spec_argument() is Some,
            r matches Some(s) ==> self.spec_argument() == Some(s@),
    {
        match self {
            SystemCommands::Info => None,
            SystemCommands::Uptime => None,
            SystemCommands::Reboot { cold } => Some(
                if *cold {
                    String::from_str("system reset cold")
                } else {
                    String::from_str("system reset")
                },
            ),
            SystemCommands::DfuMode { timeout } => Some(
                join_number("system dfu-mode", *timeout as u64),
            ),
            SystemCommands::Erase(EraseCommands::App) => Some(String::from_str("system erase app")),
            SystemCommands::Erase(EraseCommands::Defaults) => Some(
                String::from_str("system erase defaults"),
            ),
        }
    }
}

impl CommCommands {
    /// The signal that the command controls.
    pub open spec fn spec_signal(self) -> Seq<char> {
        match self {
            CommCommands::BtWake { .. } => "bt_wake"@,
            CommCommands::WlWake { .. } => "wl_wake"@,
        }
    }

    /// The state asked of the signal.
    pub open spec fn spec_state(self) -> PowerState {
        match self {
            CommCommands::BtWake { state } => state,
            CommCommands::WlWake { state } => state,
        }
    }

    /// The signal that the command controls, and the word for the state
    /// asked of it.
    pub fn signal(self) -> (r: (&'static str, &'static str))
        ensures
            r.0@ == self.spec_signal(),
            r.1@ == self.spec_state().spec_word(),
    {
        match self {
            CommCommands::BtWake { state } => ("bt_wake", state.word()),
            CommCommands::WlWake { state } => ("wl_wake", state.word()),
        }
    }
}

impl FirmwareCommands {
    /// The port and baud rate at which the flashing tool is addressed: those
    /// given with an upload, and 115200 baud where none is given.
    pub fn tool_link(&self) -> (r: (Option<String>, u32))
        ensures
            match self {
                FirmwareCommands::Upload { port, baud, .. } => r.0 == *port && r.1 == (match baud {
                    Some(b) => *b,
                    None => 115200u32,
                }),
                _ => r.0 is None && r.1 == 115200,
            },
    {
        match self {
            FirmwareCommands::Upload { port, baud, .. } => {
                let p = match port {
                    Some(s) => Some(s.clone()),
                    None => None,
                };
                let b = match baud {
                    Some(b) => *b,
                    None => 115200,
                };
                (p, b)
            },
            _ => (None, 115200),
        }
    }
}

impl PowerCommands {
    /// The line of the command on the wire.
    pub open spec fn spec_line(self) -> Seq<char> {
        match self {
            PowerCommands::Pmic { state } => with_word("power pmic"@, state.spec_word()),
            PowerCommands::Wifi { state } => with_word("power wifi"@, state.spec_word()),
            PowerCommands::Disp { state } => with_word("power disp"@, state.spec_word()),
            PowerCommands::Stats => "power stats"@,
            PowerCommands::Coulomb => "ltc2959 read"@,
        }
    }

    /// The line of the command on the wire.
    pub fn line(&self) -> (r: String)
        ensures
            r@ == self.spec_line(),
    {
        match self {
            PowerCommands::Pmic { state } => join_word("power pmic", state.word()),
            PowerCommands::Wifi { state } => join_word("power wifi", state.word()),
            PowerCommands::Disp { state } => join_word("power disp", state.word()),
            PowerCommands::Stats => String::from_str("power stats"),
            PowerCommands::Coulomb => String::from_str("ltc2959 read"),
        }
    }
}

impl BatteryCommands {
    /// The word that follows `ltc2959` on the wire.
    pub open spec fn spec_argument(self) -> Seq<char> {
        match self {
            BatteryCommands::Read => "read"@,
            BatteryCommands::Status => "status"@,
            BatteryCommands::Enable => "enable"@,
            BatteryCommands::Disable => "disable"@,
        }
    }

    /// The word that follows `ltc2959` on the wire.
    pub fn argument(self) -> (r: &'static str)
        ensures
            r@ == self.spec_argument(),
    {
        match self {
            BatteryCommands::Read => "read",
            BatteryCommands::Status => "status",
            BatteryCommands::Enable => "enable",
            BatteryCommands::Disable => "disable",
        }
    }
}

impl BoardCommands {
    /// The word that follows `board` on the wire.
    pub open spec fn spec_argument(self) -> Seq<char> {
        match self {
            BoardCommands::Reset => "reset"@,
            BoardCommands::Shutdown => "shutdown"@,
        }
    }

    /// The word that follows `board` on the wire.
    pub fn argument(self) -> (r: &'static str)
        ensures
            r@ == self.spec_argument(),
    {
        match self {
            BoardCommands::Reset => "reset",
            BoardCommands::Shutdown => "shutdown",
        }
    }
}

impl GpioCommands {
    /// The line of the command on the wire.
    pub open spec fn spec_line(&self) -> Seq<char> {
        match self {
            GpioCommands::Get { port, pin } => with_number(
                with_word("gpio get"@, port@),
                *pin as nat,
            ),
            GpioCommands::SetPin { port, pin, value } => with_number(
                with_number(with_word("gpio set"@, port@), *pin as nat),
                *value as nat,
            ),
            GpioCommands::Config { port, pin, mode } => with_word(
                with_number(with_word("gpio config"@, port@), *pin as nat),
                mode@,
            ),
        }
    }

    /// The line of the command on the wire.
    pub fn line(&self) -> (r: String)
        ensures
            r@ == self.spec_line(),
    {
        match self {
            GpioCommands::Get { port, pin } => {
                let head = join_word("gpio get", port.as_str());
                join_number(head.as_str(), *pin as u64)
            },
            GpioCommands::SetPin { port, pin, value } => {
                let head = join_word("gpio set", port.as_str());
                let mid = join_number(head.as_str(), *pin as u64);
                join_number(mid.as_str(), *value as u64)
            },
            GpioCommands::Config { port, pin, mode } => {
                let head = join_word("gpio config", port.as_str());
                let mid = join_number(head.as_str(), *pin as u64);
                join_word(mid.as_str(), mode.as_str())
            },
        }
    }
}

impl RtcCommands {
    /// The line of the command on the wire.
    pub open spec fn spec_line(self) -> Seq<char> {
        match self {
            RtcCommands::Status => "rtc status"@,
            RtcCommands::Get => "rtc get"@,
            RtcCommands::Config { action } => with_word("rtc config"@, action.spec_word()),
            RtcCommands::Show => "rtc show"@,
        }
    }

    /// The line of the command on the wire.
    pub fn line(self) -> (r: String)
        ensures
            r@ == self.spec_line(),
    {
        match self {
            RtcCommands::Status => String::from_str("rtc status"),
            RtcCommands::Get => String::from_str("rtc get"),
            RtcCommands::Config { action } => join_word("rtc config", action.word()),
            RtcCommands::Show => String::from_str("rtc show"),
        }
    }
}

impl Commands {
    /// The line that the command puts on the wire; nothing for the commands
    /// that are not sent to the controller as one line.
    pub open spec fn spec_line(&self) -> Option<Seq<char>> {
        match self {
            Commands::System(c) => Some(
                match c.spec_argument() {
                    Some(words) => words,
                    None => match c {
                        SystemCommands::Uptime => "system uptime"@,
                        _ => "system info"@,
                    },
                },
            ),
            Commands::Power(c) => Some(c.spec_line()),
            Commands::Battery(c) => Some(with_word("ltc2959"@, c.spec_argument())),
            Commands::Gpio(c) => Some(c.spec_line()),
            Commands::Nfc(c) => Some(with_word("nfc"@, c.spec_argument())),
            Commands::Board(c) => Some(with_word("board"@, c.spec_argument())),
            Commands::Ltc2959(c) => Some(with_word("ltc2959"@, c.spec_argument())),
            Commands::Pm(c) => Some(with_word("pm"@, c.spec_argument())),
            Commands::Rtc(c) => Some(c.spec_line()),
            Commands::Comm(c) => Some(
                with_word(with_word("comm"@, c.spec_signal()), c.spec_state().spec_word()),
            ),
            Commands::Ping => Some("ping"@),
            Commands::Version => Some("version"@),
            Commands::Firmware(_) => None,
            Commands::Monitor { .. } => None,
            Commands::Batch { .. } => None,
        }
    }

    /// Whether the command is expected to sever the link: a reset of the
    /// board and a reboot of the controller are.
    pub open spec fn spec_severs_link(&self) -> bool {
        match self {
            Commands::Board(BoardCommands::Reset) => true,
            Commands::System(SystemCommands::Reboot { .. }) => true,
            _ => false,
        }
    }

    /// The line that the command puts on the wire.
    pub fn line(&self) -> (r: Option<String>)
        ensures
            r is Some <==> self.spec_line() is Some,
            r matches Some(text) ==> self.spec_line() == Some(text@),
    {
        match self {
            Commands::System(c) => Some(
                match c.argument() {
                    Some(words) => words,
                    None => match c {
                        SystemCommands::Uptime => String::from_str("system uptime"),
                        _ => String::from_str("system info"),
                    },
                },
            ),
            Commands::Power(c) => Some(c.line()),
            Commands::Battery(c) => Some(join_word("ltc2959", c.argument())),
            Commands::Gpio(c) => Some(c.line()),
            Commands::Nfc(c) => Some(join_word("nfc", c.argument())),
            Commands::Board(c) => Some(join_word("board", c.argument())),
            Commands::Ltc2959(c) => {
                let words = c.argument();
                Some(join_word("ltc2959", words.as_str()))
            },
            Commands::Pm(c) => {
                let words = c.argument();
                Some(join_word("pm", words.as_str()))
            },
            Commands::Rtc(c) => Some(c.line()),
            Commands::Comm(c) => {
                let (signal, state) = c.signal();
                let head = join_word("comm", signal);
                Some(join_word(head.as_str(), state))
            },
            Commands::Ping => Some(String::from_str("ping")),
            Commands::Version => Some(String::from_str("version")),
            Commands::Firmware(_) => None,
            Commands::Monitor { .. } => None,
            Commands::Batch { .. } => None,
        }
    }

    /// Whether the command is expected to sever the link.
    pub fn severs_link(&self) -> (b: bool)
        ensures
            b == self.spec_severs_link(),
    {
        match self {
            Commands::Board(BoardCommands::Reset) => true,
            Commands::System(SystemCommands::Reboot { .. }) => true,
            _ => false,
        }
    }

    /// The name under which the reply is shown and classified, for the
    /// commands whose reply is shown in the format that was asked for; the
    /// replies of the others are printed as they are.
    pub open spec fn spec_report_name(&self) -> Option<Seq<char>> {
        match self {
            Commands::Version => Some("version"@),
            Commands::Ping => Some("ping"@),
            Commands::Power(PowerCommands::Coulomb) => Some("power coulomb"@),
            Commands::System(SystemCommands::Info) => Some("system info"@),
            Commands::System(SystemCommands::Reboot { .. }) => Some("system reboot"@),
            Commands::System(SystemCommands::Uptime) => Some("system uptime"@),
            Commands::System(SystemCommands::DfuMode { .. }) => Some("system dfu-mode"@),
            Commands::System(SystemCommands::Erase(EraseCommands::App)) => Some(
                "system erase app"@,
            ),
            Commands::System(SystemCommands::Erase(EraseCommands::Defaults)) => Some(
                "system erase defaults"@,
            ),
            Commands::Battery(BatteryCommands::Read) => Some("battery read"@),
            Commands::Battery(BatteryCommands::Status) => Some("battery status"@),
            Commands::Battery(BatteryCommands::Enable) => Some("battery enable"@),
            Commands::Battery(BatteryCommands::Disable) => Some("battery disable"@),
            Commands::Rtc(RtcCommands::Status) => Some("rtc status"@),
            Commands::Rtc(RtcCommands::Get) => Some("rtc get"@),
            Commands::Rtc(RtcCommands::Config { .. }) => Some("rtc config"@),
            Commands::Rtc(RtcCommands::Show) => Some("rtc show"@),
            Commands::Firmware(FirmwareCommands::List) => Some("firmware list"@),
            Commands::Firmware(FirmwareCommands::Info) => Some("firmware info"@),
            Commands::Firmware(FirmwareCommands::Reset) => Some("firmware reset"@),
            Commands::Firmware(FirmwareCommands::Upload { .. }) => Some("firmware upload"@),
            _ => None,
        }
    }

    /// The name under which the reply is shown and classified.
    pub fn report_name(&self) -> (r: Option<&'static str>)
        ensures
            r is Some <==> self.spec_report_name() is Some,
            r matches Some(name) ==> self.spec_report_name() == Some(name@),
    {
        match self {
            Commands::Version => Some("version"),
            Commands::Ping => Some("ping"),
            Commands::Power(PowerCommands::Coulomb) => Some("power coulomb"),
            Commands::System(SystemCommands::Info) => Some("system info"),
            Commands::System(SystemCommands::Reboot { .. }) => Some("system reboot"),
            Commands::System(SystemCommands::Uptime) => Some("system uptime"),
            Commands::System(SystemCommands::DfuMode { .. }) => Some("system dfu-mode"),
            Commands::System(SystemCommands::Erase(EraseCommands::App)) => Some(
                "system erase app",
            ),
            Commands::System(SystemCommands::Erase(EraseCommands::Defaults)) => Some(
                "system erase defaults",
            ),
            Commands::Battery(BatteryCommands::Read) => Some("battery read"),
            Commands::Battery(BatteryCommands::Status) => Some("battery status"),
            Commands::Battery(BatteryCommands::Enable) => Some("battery enable"),
            Commands::Battery(BatteryCommands::Disable) => Some("battery disable"),
            Commands::Rtc(RtcCommands::Status) => Some("rtc status"),
            Commands::Rtc(RtcCommands::Get) => Some("rtc get"),
            Commands::Rtc(RtcCommands::Config { .. }) => Some("rtc config"),
            Commands::Rtc(RtcCommands::Show) => Some("rtc show"),
            Commands::Firmware(FirmwareCommands::List) => Some("firmware list"),
            Commands::Firmware(FirmwareCommands::Info) => Some("firmware info"),
            Commands::Firmware(FirmwareCommands::Reset) => Some("firmware reset"),
            Commands::Firmware(FirmwareCommands::Upload { .. }) => Some("firmware upload"),
            _ => None,
        }
    }
}

} // verus!
