//! Power rails, GPIO pins and the battery: the requests that control them
//! and the figures that describe them.

use vstd::prelude::*;
use vstd::string::StringExecFns;
use crate::chars::{decimal_text, format_signed, format_unsigned, signed_text, to_text};
use crate::json::{battery_is_literal, battery_reading, BatteryJson, ResponseParser};
use crate::cli;
use crate::cli::{with_number, with_word};
use crate::error::PowerCliError;
use crate::framing::Exchange;
use crate::protocol::{is_started, Protocol};
use crate::connection::Connection;
use crate::reply::Terminators;

verus! {

/// The states that a power rail can be asked for.
#[derive(Debug, Clone, Copy, PartialEq, Eq, Structural)]
pub enum PowerState {
    On,
    Off,
    Status,
}

impl PowerState {
    /// The word for the state on the wire.
    pub open spec fn spec_word(self) -> Seq<char> {
        match self {
            PowerState::On => "on"@,
            PowerState::Off => "off"@,
            PowerState::Status => "status"@,
        }
    }

    /// The word for the state on the wire.
    pub fn word(self) -> (r: &'static str)
        ensures
            r@ == self.spec_word(),
    {
        match self {
            PowerState::On => "on",
            PowerState::Off => "off",
            PowerState::Status => "status",
        }
    }
}

impl From<cli::PowerState> for PowerState {
    fn from(state: cli::PowerState) -> (r: PowerState) {
        match state {
            cli::PowerState::On => PowerState::On,
            cli::PowerState::Off => PowerState::Off,
            cli::PowerState::Status => PowerState::Status,
        }
    }
}

impl vstd::std_specs::convert::FromSpecImpl<cli::PowerState> for PowerState {
    open spec fn obeys_from_spec() -> bool {
        true
    }

    open spec fn from_spec(state: cli::PowerState) -> PowerState {
        match state {
            cli::PowerState::On => PowerState::On,
            cli::PowerState::Off => PowerState::Off,
            cli::PowerState::Status => PowerState::Status,
        }
    }
}

/// What to do with a GPIO pin.
#[derive(Debug, Clone, Copy, PartialEq, Eq, Structural)]
pub enum GpioAction {
    /// Read the pin.
    Get,
    /// Drive the pin to a value.
    SetPin(u8),
}

/// The battery at one moment. A figure that the controller's reply did not
/// hold is absent; it is not zero.
#[derive(Debug, Clone, Copy, PartialEq, Eq)]
pub struct BatteryStatus {
    /// Voltage in millivolts.
    pub voltage_mv: Option<u16>,
    /// Current in milliamps: positive while charging, negative while
    /// discharging.
    pub current_ma: Option<i16>,
    /// Accumulated charge in milliamp-hours.
    pub charge_mah: Option<u32>,
    /// Temperature in degrees Celsius.
    pub temperature_c: Option<i16>,
    /// Time of the measurement, in milliseconds since the Unix epoch.
    pub timestamp_ms: i64,
}

/// The quotient of `a` by 1000, rounded towards zero.
pub open spec fn thousandth(a: int) -> int {
    if a >= 0 {
        a / 1000
    } else {
        -((-a) / 1000)
    }
}

/// How a figure is shown: the number, or `n/a` where it is absent.
pub open spec fn shown_figure(figure: Option<int>) -> Seq<char> {
    match figure {
        Some(n) => signed_text(n),
        None => "n/a"@,
    }
}

fn unsigned_word(n: u64) -> (r: String)
    ensures
        r@ == decimal_text(n as nat),
{
    let digits = format_unsigned(n);
    to_text(digits.as_slice())
}

fn figure_word(figure: Option<i64>) -> (r: String)
    ensures
        r@ == shown_figure(
            match figure {
                Some(n) => Some(n as int),
                None => None,
            },
        ),
{
    match figure {
        Some(n) => {
            let digits = format_signed(n);
            to_text(digits.as_slice())
        },
        None => String::from_str("n/a"),
    }
}

/// The status that a battery record gives: its voltage, current and charge,
/// each absent where the record's is, and no temperature, which no record
/// holds.
pub open spec fn status_of(record: BatteryJson, timestamp_ms: i64) -> BatteryStatus {
    BatteryStatus {
        voltage_mv: record.voltage_mv,
        current_ma: record.current_ma,
        charge_mah: match record.charge_mah {
            Some(c) => Some(c as u32),
            None => None,
        },
        temperature_c: None,
        timestamp_ms,
    }
}

impl BatteryStatus {
    /// The status that a battery record gives, taken at the given time.
    pub fn from_record(record: &BatteryJson, timestamp_ms: i64) -> (r: BatteryStatus)
        ensures
            r == status_of(*record, timestamp_ms),
    {
        BatteryStatus {
            voltage_mv: record.voltage_mv,
            current_ma: record.current_ma,
            charge_mah: match record.charge_mah {
                Some(c) => Some(c as u32),
                None => None,
            },
            temperature_c: None,
            timestamp_ms,
        }
    }

    /// The power in milliwatts, where voltage and current are known.
    pub open spec fn spec_power(&self) -> Option<int> {
        match (self.voltage_mv, self.current_ma) {
            (Some(v), Some(c)) => Some(thousandth(v as int * c as int)),
            _ => None,
        }
    }

    /// The measurement as text for a reader.
    pub open spec fn spec_human(&self) -> Seq<char> {
        "📊 Battery Status:\n   🔋 Voltage: "@ + shown_figure(
            match self.voltage_mv {
                Some(v) => Some(v as int),
                None => None,
            },
        ) + " mV\n   ⚡ Current: "@ + shown_figure(
            match self.current_ma {
                Some(v) => Some(v as int),
                None => None,
            },
        ) + " mA\n   🔋 Charge: "@ + shown_figure(
            match self.charge_mah {
                Some(v) => Some(v as int),
                None => None,
            },
        ) + " mAh\n   🌡️  Temperature: "@ + shown_figure(
            match self.temperature_c {
                Some(v) => Some(v as int),
                None => None,
            },
        ) + "°C\n   ⚡ Power: "@ + shown_figure(self.spec_power()) + " mW"@
    }

    /// The measurement as text for a reader.
    pub fn format_human(&self) -> (r: String)
        ensures
            r@ == self.spec_human(),
    {
        let voltage = figure_word(
            match self.voltage_mv {
                Some(v) => Some(v as i64),
                None => None,
            },
        );
        let current = figure_word(
            match self.current_ma {
                Some(v) => Some(v as i64),
                None => None,
            },
        );
        let charge = figure_word(
            match self.charge_mah {
                Some(v) => Some(v as i64),
                None => None,
            },
        );
        let temperature = figure_word(
            match self.temperature_c {
                Some(v) => Some(v as i64),
                None => None,
            },
        );
        let power = figure_word(
            match self.power_mw() {
                Some(v) => Some(v as i64),
                None => None,
            },
        );
        String::from_str("📊 Battery Status:\n   🔋 Voltage: ").concat(voltage.as_str()).concat(
            " mV\n   ⚡ Current: ",
        ).concat(current.as_str()).concat(" mA\n   🔋 Charge: ").concat(charge.as_str()).concat(
            " mAh\n   🌡️  Temperature: ",
        ).concat(temperature.as_str()).concat("°C\n   ⚡ Power: ").concat(power.as_str()).concat(
            " mW",
        )
    }

    /// Power in milliwatts: voltage times current, in thousandths, rounded
    /// towards zero; nothing where either is absent.
    pub fn power_mw(&self) -> (r: Option<i32>)
        ensures
            r is Some <==> self.spec_power() is Some,
            r matches Some(p) ==> self.spec_power() == Some(p as int),
    {
        match (self.voltage_mv, self.current_ma) {
            (Some(voltage), Some(current)) => {
                let v: i32 = voltage as i32;
                let c: i32 = current as i32;
                assert(-2_147_450_880 <= v * c <= 2_147_385_345) by (nonlinear_arith)
                    requires
                        0 <= v <= 65535,
                        -32768 <= c <= 32767,
                ;
                let p: i32 = v * c;
                if p >= 0 {
                    Some(p / 1000)
                } else {
                    Some(0 - ((0 - p) / 1000))
                }
            },
            _ => None,
        }
    }

    /// Whether current flows into the battery; nothing where the current is
    /// absent.
    pub fn is_charging(&self) -> (b: Option<bool>)
        ensures
            b == (match self.current_ma {
                Some(c) => Some(c > 0),
                None => None,
            }),
    {
        match self.current_ma {
            Some(c) => Some(c > 0),
            None => None,
        }
    }

    /// Whether the voltage lies below a threshold; nothing where the voltage
    /// is absent.
    pub fn is_low_voltage(&self, threshold_mv: u16) -> (b: Option<bool>)
        ensures
            b == (match self.voltage_mv {
                Some(v) => Some(v < threshold_mv),
                None => None,
            }),
    {
        match self.voltage_mv {
            Some(v) => Some(v < threshold_mv),
            None => None,
        }
    }
}

/// Counters of the power management.
#[derive(Debug, Clone, Copy, PartialEq, Eq, Structural)]
pub struct PowerStats {
    pub active_time_ms: u32,
    pub sleep_count: u32,
    pub wake_count: u32,
    pub rtc_wake_count: u32,
    pub nfc_wake_count: u32,
    pub uart_wake_count: u32,
    /// Time of the measurement, in milliseconds since the Unix epoch.
    pub timestamp_ms: i64,
}

impl PowerStats {
    /// The counters as text for a reader.
    pub open spec fn spec_human(&self) -> Seq<char> {
        "⚡ Power Management Statistics:\n   Active time: "@ + decimal_text(
            self.active_time_ms as nat,
        ) + " ms\n   Sleep count: "@ + decimal_text(self.sleep_count as nat)
            + "\n   Wake events: "@ + decimal_text(self.wake_count as nat)
            + "\n   RTC wake events: "@ + decimal_text(self.rtc_wake_count as nat)
            + "\n   NFC wake events: "@ + decimal_text(self.nfc_wake_count as nat)
            + "\n   UART wake events: "@ + decimal_text(self.uart_wake_count as nat)
    }

    /// The counters as text for a reader.
    pub fn format_human(&self) -> (r: String)
        ensures
            r@ == self.spec_human(),
    {
        let active = unsigned_word(self.active_time_ms as u64);
        let sleep = unsigned_word(self.sleep_count as u64);
        let wake = unsigned_word(self.wake_count as u64);
        let rtc = unsigned_word(self.rtc_wake_count as u64);
        let nfc = unsigned_word(self.nfc_wake_count as u64);
        let uart = unsigned_word(self.uart_wake_count as u64);
        String::from_str("⚡ Power Management Statistics:\n   Active time: ").concat(
            active.as_str(),
        ).concat(" ms\n   Sleep count: ").concat(sleep.as_str()).concat(
            "\n   Wake events: ",
        ).concat(wake.as_str()).concat("\n   RTC wake events: ").concat(rtc.as_str()).concat(
            "\n   NFC wake events: ",
        ).concat(nfc.as_str()).concat("\n   UART wake events: ").concat(uart.as_str())
    }
}

/// Control of the power rails and pins over one link.
#[derive(Debug, Clone, PartialEq, Eq)]
pub struct PowerController {
    pub protocol: Protocol,
}

impl PowerController {
    /// A controller on the given link.
    pub fn new(connection: Connection) -> (r: PowerController)
        ensures
            r.protocol.connection == connection,
    {
        PowerController { protocol: Protocol::new(connection) }
    }

    /// Starts `power pmic <state>`.
    pub fn control_pmic(&self, state: PowerState, terminators: Terminators, now_ms: u64) -> (r:
        Result<Exchange, PowerCliError>)
        ensures
            is_started(
                self.protocol.connection,
                with_word(with_word("power"@, "pmic"@), state.spec_word()),
                false,
                terminators@,
                now_ms,
                r,
            ),
    {
        self.protocol.execute_power_command("pmic", state.word(), terminators, now_ms)
    }

    /// Starts `power wifi <state>`.
    pub fn control_wifi(&self, state: PowerState, terminators: Terminators, now_ms: u64) -> (r:
        Result<Exchange, PowerCliError>)
        ensures
            is_started(
                self.protocol.connection,
                with_word(with_word("power"@, "wifi"@), state.spec_word()),
                false,
                terminators@,
                now_ms,
                r,
            ),
    {
        self.protocol.execute_power_command("wifi", state.word(), terminators, now_ms)
    }

    /// Starts `power disp <state>`.
    pub fn control_display(&self, state: PowerState, terminators: Terminators, now_ms: u64) -> (r:
        Result<Exchange, PowerCliError>)
        ensures
            is_started(
                self.protocol.connection,
                with_word(with_word("power"@, "disp"@), state.spec_word()),
                false,
                terminators@,
                now_ms,
                r,
            ),
    {
        self.protocol.execute_power_command("disp", state.word(), terminators, now_ms)
    }

    /// Starts `power stats`.
    pub fn get_power_stats(&self, terminators: Terminators, now_ms: u64) -> (r: Result<
        Exchange,
        PowerCliError,
    >)
        ensures
            is_started(self.protocol.connection, "power stats"@, false, terminators@, now_ms, r),
    {
        self.protocol.execute_system_command("power stats", terminators, now_ms)
    }

    /// Starts `pm deep_sleep_all_off`, with the wake-up time in milliseconds
    /// where one is given.
    pub fn deep_sleep_all_off(
        &self,
        timeout_ms: Option<u32>,
        terminators: Terminators,
        now_ms: u64,
    ) -> (r: Result<Exchange, PowerCliError>)
        ensures
            is_started(
                self.protocol.connection,
                match timeout_ms {
                    Some(t) => with_number("pm deep_sleep_all_off"@, t as nat),
                    None => "pm deep_sleep_all_off"@,
                },
                false,
                terminators@,
                now_ms,
                r,
            ),
    {
        match timeout_ms {
            Some(t) => {
                let line = cli::join_number("pm deep_sleep_all_off", t as u64);
                self.protocol.execute_system_command(line.as_str(), terminators, now_ms)
            },
            None => self.protocol.execute_system_command(
                "pm deep_sleep_all_off",
                terminators,
                now_ms,
            ),
        }
    }

    /// Starts the request that reads a pin or drives it.
    pub fn control_gpio(
        &self,
        port: &str,
        pin: u8,
        action: GpioAction,
        terminators: Terminators,
        now_ms: u64,
    ) -> (r: Result<Exchange, PowerCliError>)
        ensures
            is_started(
                self.protocol.connection,
                match action {
                    GpioAction::Get => with_number(with_word("gpio get"@, port@), pin as nat),
                    GpioAction::SetPin(v) => with_number(
                        with_number(with_word("gpio set"@, port@), pin as nat),
                        v as nat,
                    ),
                },
                false,
                terminators@,
                now_ms,
                r,
            ),
    {
        proof {
            reveal_strlit("get");
            reveal_strlit("set");
            assert("get"@ != "set"@) by {
                assert("get"@[0] != "set"@[0]);
            }
        }
        match action {
            GpioAction::Get => self.protocol.execute_gpio_command(
                "get",
                port,
                pin,
                None,
                terminators,
                now_ms,
            ),
            GpioAction::SetPin(value) => self.protocol.execute_gpio_command(
                "set",
                port,
                pin,
                Some(value),
                terminators,
                now_ms,
            ),
        }
    }
}

/// Battery monitoring over one link.
#[derive(Debug, Clone, PartialEq, Eq)]
pub struct BatteryMonitor {
    pub protocol: Protocol,
}

impl BatteryMonitor {
    /// A monitor on the given link.
    pub fn new(connection: Connection) -> (r: BatteryMonitor)
        ensures
            r.protocol.connection == connection,
    {
        BatteryMonitor { protocol: Protocol::new(connection) }
    }

    /// The status that the reply to `ltc2959 read` gives, taken at the given
    /// time. Every figure is read from the reply or absent.
    pub fn parse_battery_response(response: &str, timestamp_ms: i64) -> (r: BatteryStatus)
        ensures
            r == status_of(battery_reading(response@), timestamp_ms),
            battery_is_literal(response@, battery_reading(response@)),
    {
        let record = ResponseParser::parse_battery_response(response);
        BatteryStatus::from_record(&record, timestamp_ms)
    }

    /// Starts `ltc2959 read`.
    pub fn read_status(&self, terminators: Terminators, now_ms: u64) -> (r: Result<
        Exchange,
        PowerCliError,
    >)
        ensures
            is_started(
                self.protocol.connection,
                with_word("ltc2959"@, "read"@),
                false,
                terminators@,
                now_ms,
                r,
            ),
    {
        self.protocol.execute_battery_command("read", terminators, now_ms)
    }

    /// Starts `ltc2959 status`.
    pub fn get_device_status(&self, terminators: Terminators, now_ms: u64) -> (r: Result<
        Exchange,
        PowerCliError,
    >)
        ensures
            is_started(
                self.protocol.connection,
                with_word("ltc2959"@, "status"@),
                false,
                terminators@,
                now_ms,
                r,
            ),
    {
        self.protocol.execute_battery_command("status", terminators, now_ms)
    }

    /// Starts `ltc2959 enable`.
    pub fn enable_monitoring(&self, terminators: Terminators, now_ms: u64) -> (r: Result<
        Exchange,
        PowerCliError,
    >)
        ensures
            is_started(
                self.protocol.connection,
                with_word("ltc2959"@, "enable"@),
                false,
                terminators@,
                now_ms,
                r,
            ),
    {
        self.protocol.execute_battery_command("enable", terminators, now_ms)
    }

    /// Starts `ltc2959 disable`.
    pub fn disable_monitoring(&self, terminators: Terminators, now_ms: u64) -> (r: Result<
        Exchange,
        PowerCliError,
    >)
        ensures
            is_started(
                self.protocol.connection,
                with_word("ltc2959"@, "disable"@),
                false,
                terminators@,
                now_ms,
                r,
            ),
    {
        self.protocol.execute_battery_command("disable", terminators, now_ms)
    }
}

} // verus!
