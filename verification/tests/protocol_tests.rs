use eink_power_cli::cli;
use eink_power_cli::cli::{
    BoardCommands, Commands, CommCommands, DefaultsCommands, DeviceAction, EraseCommands, ExternalRtcAction,
    FirmwareCommands, Ltc2959Commands, MonitorAction, NfcCommands, PowerManagementCommands,
    SystemCommands,
};
use eink_power_cli::connection::{Connection, Probe};
use eink_power_cli::error::{check_reply, is_failure_reply, PowerCliError};
use eink_power_cli::framing::{Action, Event, Exchange, Reply, ReplyExit};
use eink_power_cli::power::{BatteryMonitor, BatteryStatus, GpioAction, PowerController, PowerState};
use eink_power_cli::protocol::Protocol;
use eink_power_cli::reply::Terminators;

fn open_link() -> Connection {
    let mut link = Connection::new("/dev/ttyUSB0", 115200).expect("a link");
    link.connect(Probe::Opened).expect("opened");
    link
}

fn line_of(r: Result<Exchange, PowerCliError>) -> String {
    let mut x = r.expect("started");
    assert_eq!(x.step(&Event::Quiet, 0), Action::Write);
    x.wire_line()
}

fn terms() -> Terminators {
    Terminators::standard()
}

#[test]
fn error_messages_name_their_cause() {
    assert_eq!(PowerCliError::Timeout { timeout: 3 }.message(), "Command timeout after 3s");
    assert_eq!(PowerCliError::Timeout { timeout: 0 }.message(), "Command timeout after 0s");
    assert_eq!(
        PowerCliError::NotConnected.message(),
        "Connection not established - call connect() first"
    );
    assert_eq!(
        PowerCliError::DeviceNotFound { device: "/dev/x".to_string() }.message(),
        "Device not found: /dev/x"
    );
    assert_eq!(
        PowerCliError::ControllerError { message: "Error: no".to_string() }.message(),
        "Controller error: Error: no"
    );
    assert_eq!(
        PowerCliError::InvalidCommand { command: "gpio".to_string() }.message(),
        "Invalid command format: gpio"
    );
    assert_eq!(PowerCliError::Io("broken".to_string()).message(), "I/O error: broken");
    assert_eq!(
        PowerCliError::Serial("busy".to_string()).message(),
        "Serial communication error: busy"
    );
    assert_eq!(PowerCliError::TokioSerial("busy".to_string()).message(), "Async serial error: busy");
    assert_eq!(
        PowerCliError::InvalidResponse { response: "?".to_string() }.message(),
        "Invalid response from controller: ?"
    );
    assert_eq!(PowerCliError::Config("c".to_string()).message(), "Configuration error: c");
    assert_eq!(PowerCliError::Json("j".to_string()).message(), "JSON parsing error: j");
    assert_eq!(
        PowerCliError::BatteryError { message: "b".to_string() }.message(),
        "Battery monitoring error: b"
    );
    assert_eq!(
        PowerCliError::PowerError { message: "p".to_string() }.message(),
        "Power control error: p"
    );
    assert_eq!(
        PowerCliError::NfcError { message: "n".to_string() }.message(),
        "NFC interface error: n"
    );
    assert_eq!(
        PowerCliError::GpioError { message: "g".to_string() }.message(),
        "GPIO control error: g"
    );
    assert_eq!(
        PowerCliError::FirmwareError { message: "f".to_string() }.message(),
        "Firmware error: f"
    );
}

#[test]
fn controller_failures_are_found_by_their_marker() {
    assert!(is_failure_reply("Error: unknown command"));
    assert!(is_failure_reply("write Failed: busy"));
    assert!(!is_failure_reply("error: lower case"));
    assert!(!is_failure_reply("Error"));
    assert!(!is_failure_reply(""));
    assert_eq!(
        check_reply("Error: unknown command"),
        Err(PowerCliError::ControllerError { message: "Error: unknown command".to_string() })
    );
    assert_eq!(check_reply("pong"), Ok("pong".to_string()));
    assert_eq!(
        Protocol::parse_response("x\nFailed: y"),
        Err(PowerCliError::ControllerError { message: "x\nFailed: y".to_string() })
    );
    assert_eq!(Protocol::parse_response("ok"), Ok("ok".to_string()));
}

fn reply(text: &str) -> Reply {
    Reply {
        text: text.to_string(),
        raw: text.to_string(),
        terminated: false,
        idle_ms: 0,
        exit: ReplyExit::Idle,
    }
}

#[test]
fn finished_round_trips_are_concluded() {
    assert_eq!(Protocol::conclude(Ok(reply("pong")), false), Ok("pong".to_string()));
    assert_eq!(
        Protocol::conclude(Ok(reply("Error: x")), false),
        Err(PowerCliError::ControllerError { message: "Error: x".to_string() })
    );
    assert_eq!(Protocol::conclude(Ok(reply("Error: x")), true), Ok("Error: x".to_string()));
    assert_eq!(Protocol::conclude(Ok(reply("")), true), Ok("".to_string()));
    assert_eq!(
        Protocol::conclude(Err(PowerCliError::Timeout { timeout: 3 }), false),
        Err(PowerCliError::Timeout { timeout: 3 })
    );
    assert_eq!(
        Protocol::conclude(Err(PowerCliError::NotConnected), true),
        Err(PowerCliError::NotConnected)
    );
}

#[test]
fn protocol_builds_the_command_lines() {
    let p = Protocol::new(open_link());
    assert_eq!(line_of(p.execute_system_command("version", terms(), 0)), "version\n");
    assert_eq!(line_of(p.execute_power_command("pmic", "on", terms(), 0)), "power pmic on\n");
    assert_eq!(line_of(p.execute_battery_command("read", terms(), 0)), "ltc2959 read\n");
    assert_eq!(line_of(p.execute_nfc_command("status", terms(), 0)), "nfc status\n");
    assert_eq!(line_of(p.execute_board_command("shutdown", terms(), 0)), "board shutdown\n");
    assert_eq!(line_of(p.execute_ltc2959_command("scan", terms(), 0)), "ltc2959 scan\n");
    assert_eq!(line_of(p.execute_pm_command("wake", terms(), 0)), "pm wake\n");
    assert_eq!(
        line_of(p.execute_gpio_command("get", "gpioa", 3, None, terms(), 0)),
        "gpio get gpioa 3\n"
    );
    assert_eq!(
        line_of(p.execute_gpio_command("set", "gpiob", 12, Some(1), terms(), 0)),
        "gpio set gpiob 12 1\n"
    );
}

#[test]
fn gpio_requests_are_checked_before_they_are_sent() {
    assert_eq!(Protocol::gpio_line("get", "gpioa", 0, Some(1)), Ok("gpio get gpioa 0".to_string()));
    assert_eq!(
        Protocol::gpio_line("set", "gpioa", 255, Some(0)),
        Ok("gpio set gpioa 255 0".to_string())
    );
    assert_eq!(
        Protocol::gpio_line("set", "gpioa", 0, None),
        Err(PowerCliError::InvalidCommand { command: "GPIO set requires a value".to_string() })
    );
    assert_eq!(
        Protocol::gpio_line("toggle", "gpioa", 0, Some(1)),
        Err(PowerCliError::InvalidCommand { command: "Unknown GPIO action: toggle".to_string() })
    );
    let closed = Protocol::new(Connection::new("/dev/ttyUSB0", 115200).expect("a link"));
    assert_eq!(
        closed.execute_gpio_command("set", "gpioa", 0, None, terms(), 0).err(),
        Some(PowerCliError::InvalidCommand { command: "GPIO set requires a value".to_string() })
    );
    assert_eq!(
        closed.execute_gpio_command("get", "gpioa", 0, None, terms(), 0).err(),
        Some(PowerCliError::NotConnected)
    );
    assert_eq!(
        closed.execute_system_command("a\nb", terms(), 0).err(),
        Some(PowerCliError::InvalidCommand { command: "a\nb".to_string() })
    );
}

#[test]
fn board_reset_is_disruptive() {
    let p = Protocol::new(open_link());
    let mut x = p.execute_board_command("reset", terms(), 0).expect("started");
    assert_eq!(x.step(&Event::Quiet, 0), Action::Write);
    assert_eq!(x.wire_line(), "board reset\n");
    x.step(&Event::Written, 0);
    assert_eq!(x.step(&Event::Quiet, 500), Action::Finish);
    assert!(matches!(x.outcome(), Some(Ok(_))));
    let mut x = p.execute_board_command("shutdown", terms(), 0).expect("started");
    x.step(&Event::Quiet, 0);
    x.step(&Event::Written, 0);
    assert_eq!(x.step(&Event::Quiet, 500), Action::Read { wait_ms: 100 });
    assert_eq!(
        eink_power_cli::protocol::BOARD_RESET_NOTICE,
        "Board reset sequence initiated. Connection will be lost during power cycle."
    );
}

#[test]
fn power_controller_builds_its_requests() {
    let c = PowerController::new(open_link());
    assert_eq!(line_of(c.control_pmic(PowerState::On, terms(), 0)), "power pmic on\n");
    assert_eq!(line_of(c.control_wifi(PowerState::Off, terms(), 0)), "power wifi off\n");
    assert_eq!(line_of(c.control_display(PowerState::Status, terms(), 0)), "power disp status\n");
    assert_eq!(line_of(c.get_power_stats(terms(), 0)), "power stats\n");
    assert_eq!(line_of(c.deep_sleep_all_off(None, terms(), 0)), "pm deep_sleep_all_off\n");
    assert_eq!(
        line_of(c.deep_sleep_all_off(Some(60000), terms(), 0)),
        "pm deep_sleep_all_off 60000\n"
    );
    assert_eq!(line_of(c.control_gpio("gpioa", 5, GpioAction::Get, terms(), 0)), "gpio get gpioa 5\n");
    assert_eq!(
        line_of(c.control_gpio("gpioa", 5, GpioAction::SetPin(1), terms(), 0)),
        "gpio set gpioa 5 1\n"
    );
    let closed = PowerController::new(Connection::new("/dev/ttyUSB0", 115200).expect("a link"));
    assert_eq!(
        closed.control_pmic(PowerState::On, terms(), 0).err(),
        Some(PowerCliError::NotConnected)
    );
}

#[test]
fn test_battery_monitoring() {
    let connection = Connection::new("/dev/ttyUSB0", 115200).expect("Failed to create connection");
    let battery = BatteryMonitor::new(connection);
    assert_eq!(battery.read_status(terms(), 0).err(), Some(PowerCliError::NotConnected));
    let battery = BatteryMonitor::new(open_link());
    assert_eq!(line_of(battery.read_status(terms(), 0)), "ltc2959 read\n");
    assert_eq!(line_of(battery.get_device_status(terms(), 0)), "ltc2959 status\n");
    assert_eq!(line_of(battery.enable_monitoring(terms(), 0)), "ltc2959 enable\n");
    assert_eq!(line_of(battery.disable_monitoring(terms(), 0)), "ltc2959 disable\n");
}

#[test]
fn battery_figures_are_derived() {
    let s = BatteryStatus {
        voltage_mv: Some(3850),
        current_ma: Some(125),
        charge_mah: Some(2450),
        temperature_c: Some(23),
        timestamp_ms: 0,
    };
    assert_eq!(s.power_mw(), Some(481));
    assert_eq!(s.is_charging(), Some(true));
    assert_eq!(s.is_low_voltage(3200), Some(false));
    assert_eq!(s.is_low_voltage(3851), Some(true));
    assert_eq!(s.is_low_voltage(3850), Some(false));
    let d = BatteryStatus { current_ma: Some(-125), ..s };
    assert_eq!(d.power_mw(), Some(-481));
    assert_eq!(d.is_charging(), Some(false));
    let z = BatteryStatus { current_ma: Some(0), ..s };
    assert_eq!(z.power_mw(), Some(0));
    assert_eq!(z.is_charging(), Some(false));
    let big = BatteryStatus { voltage_mv: Some(65535), current_ma: Some(-32768), ..s };
    assert_eq!(big.power_mw(), Some(-2147450));
    let big = BatteryStatus { voltage_mv: Some(65535), current_ma: Some(32767), ..s };
    assert_eq!(big.power_mw(), Some(2147385));
}

#[test]
fn absent_figures_stay_absent() {
    let s = BatteryStatus {
        voltage_mv: None,
        current_ma: Some(5),
        charge_mah: None,
        temperature_c: None,
        timestamp_ms: 7,
    };
    assert_eq!(s.power_mw(), None);
    assert_eq!(s.is_low_voltage(3200), None);
    assert_eq!(s.is_charging(), Some(true));
    let s = BatteryStatus { voltage_mv: Some(3000), current_ma: None, ..s };
    assert_eq!(s.power_mw(), None);
    assert_eq!(s.is_charging(), None);
    assert_eq!(s.is_low_voltage(3200), Some(true));
}

#[test]
fn battery_status_is_read_from_a_reply() {
    let s = BatteryMonitor::parse_battery_response(
        "Voltage: 6088 mV\nCurrent: -170 mA\nCharge: 12 mAh\nPower: -1040 mW",
        1700,
    );
    assert_eq!(
        s,
        BatteryStatus {
            voltage_mv: Some(6088),
            current_ma: Some(-170),
            charge_mah: Some(12),
            temperature_c: None,
            timestamp_ms: 1700,
        }
    );
    assert_eq!(s.power_mw(), Some(-1034));
    let s = BatteryMonitor::parse_battery_response("Voltage: 3850 mV\nCurrent: -125 mA", 5);
    assert_eq!(
        s,
        BatteryStatus {
            voltage_mv: Some(3850),
            current_ma: Some(-125),
            charge_mah: None,
            temperature_c: None,
            timestamp_ms: 5,
        }
    );
    let s = BatteryMonitor::parse_battery_response("pong", -1);
    assert_eq!(
        s,
        BatteryStatus {
            voltage_mv: None,
            current_ma: None,
            charge_mah: None,
            temperature_c: None,
            timestamp_ms: -1,
        }
    );
    let record = eink_power_cli::json::BatteryJson {
        voltage_mv: Some(1),
        current_ma: None,
        charge_mah: Some(65535),
        power_mw: Some(9),
    };
    let s = BatteryStatus::from_record(&record, 3);
    assert_eq!(s.voltage_mv, Some(1));
    assert_eq!(s.current_ma, None);
    assert_eq!(s.charge_mah, Some(65535));
    assert_eq!(s.temperature_c, None);
    assert_eq!(s.timestamp_ms, 3);
}

#[test]
fn power_states_convert() {
    assert_eq!(PowerState::from(cli::PowerState::On), PowerState::On);
    assert_eq!(PowerState::from(cli::PowerState::Off), PowerState::Off);
    assert_eq!(PowerState::from(cli::PowerState::Status), PowerState::Status);
    assert_eq!(PowerState::On.word(), "on");
    assert_eq!(PowerState::Off.word(), "off");
    assert_eq!(PowerState::Status.word(), "status");
    assert_eq!(cli::PowerState::Status.word(), "status");
}

#[test]
fn commands_give_their_words() {
    assert_eq!(NfcCommands::FieldDetect.argument(), "field_detect");
    assert_eq!(NfcCommands::Scan.argument(), "scan");
    assert_eq!(Ltc2959Commands::Init.argument(), "init");
    assert_eq!(Ltc2959Commands::SetCharge { charge: 2450 }.argument(), "set_charge 2450");
    assert_eq!(
        Ltc2959Commands::CcGpio { state: cli::PowerState::Off }.argument(),
        "cc_gpio off"
    );
    assert_eq!(Ltc2959Commands::AdcMode { mode: 6 }.argument(), "adc_mode 6");
    assert_eq!(
        Ltc2959Commands::RegRead { address: "0x01".to_string() }.argument(),
        "reg_read 0x01"
    );
    assert_eq!(
        Ltc2959Commands::RegWrite { address: "0x01".to_string(), value: "0xff".to_string() }
            .argument(),
        "reg_write 0x01 0xff"
    );
    assert_eq!(DefaultsCommands::Show.argument(), "defaults");
    assert_eq!(DefaultsCommands::Save.argument(), "defaults save");
    assert_eq!(
        DefaultsCommands::Wifi { state: cli::PowerState::On }.argument(),
        "defaults wifi on"
    );
    assert_eq!(SystemCommands::Info.argument(), None);
    assert_eq!(SystemCommands::Uptime.argument(), None);
    assert_eq!(SystemCommands::Reboot { cold: false }.argument(), Some("system reset".to_string()));
    assert_eq!(
        SystemCommands::Reboot { cold: true }.argument(),
        Some("system reset cold".to_string())
    );
    assert_eq!(
        SystemCommands::DfuMode { timeout: 20 }.argument(),
        Some("system dfu-mode 20".to_string())
    );
    assert_eq!(
        SystemCommands::Erase(EraseCommands::App).argument(),
        Some("system erase app".to_string())
    );
    assert_eq!(
        SystemCommands::Erase(EraseCommands::Defaults).argument(),
        Some("system erase defaults".to_string())
    );
    assert_eq!(ExternalRtcAction::NoAction.word(), "none");
    assert_eq!(ExternalRtcAction::Wake.word(), "wake");
    assert_eq!(ExternalRtcAction::Auto.word(), "auto");
    assert_eq!(DeviceAction::Sleep.word(), "sleep");
    assert_eq!(CommCommands::BtWake { state: cli::PowerState::On }.signal(), ("bt_wake", "on"));
    assert_eq!(
        CommCommands::WlWake { state: cli::PowerState::Status }.signal(),
        ("wl_wake", "status")
    );
    assert_eq!(cli::join_number("monitor start", 30), "monitor start 30");
    assert_eq!(cli::join_word("a", "b"), "a b");
}

#[test]
fn power_management_commands_give_their_words() {
    assert_eq!(PowerManagementCommands::Stats.argument(), "stats");
    assert_eq!(PowerManagementCommands::Wake.argument(), "wake");
    assert_eq!(PowerManagementCommands::Measure.argument(), "measure");
    assert_eq!(PowerManagementCommands::BatteryCheck.argument(), "battery_check");
    assert_eq!(
        PowerManagementCommands::Monitor { action: MonitorAction::Start, interval: Some(30) }
            .argument(),
        "monitor start 30"
    );
    assert_eq!(
        PowerManagementCommands::Monitor { action: MonitorAction::Start, interval: None }
            .argument(),
        "monitor start"
    );
    assert_eq!(
        PowerManagementCommands::Monitor { action: MonitorAction::Stop, interval: Some(30) }
            .argument(),
        "monitor stop"
    );
    assert_eq!(PowerManagementCommands::All { state: cli::PowerState::Off }.argument(), "all off");
    assert_eq!(PowerManagementCommands::Pmic { state: cli::PowerState::On }.argument(), "pmic on");
    assert_eq!(
        PowerManagementCommands::Wifi { state: cli::PowerState::Status }.argument(),
        "wifi status"
    );
    assert_eq!(PowerManagementCommands::Disp { state: cli::PowerState::On }.argument(), "disp on");
    assert_eq!(
        PowerManagementCommands::Defaults(DefaultsCommands::Pmic { state: cli::PowerState::Off })
            .argument(),
        "defaults pmic off"
    );
    assert_eq!(
        PowerManagementCommands::Ltc2959 { action: DeviceAction::Wake }.argument(),
        "ltc2959 wake"
    );
    assert_eq!(PowerManagementCommands::Nfc { action: DeviceAction::Sleep }.argument(), "nfc sleep");
    assert_eq!(
        PowerManagementCommands::Imx93 { state: cli::PowerState::Status }.argument(),
        "imx93 status"
    );
    assert_eq!(
        PowerManagementCommands::Sleep {
            time: None,
            pmic: false,
            wifi: false,
            disp: false,
            alloff: false,
            vlls0: false,
            vlls1: false,
            vlls2: false,
            vlls3: false,
        }
        .argument(),
        "sleep"
    );
    assert_eq!(
        PowerManagementCommands::Sleep {
            time: Some("1d12h30m".to_string()),
            pmic: true,
            wifi: false,
            disp: true,
            alloff: false,
            vlls0: false,
            vlls1: true,
            vlls2: false,
            vlls3: true,
        }
        .argument(),
        "sleep 1d12h30m --pmic --disp --vlls1 --vlls3"
    );
    assert_eq!(
        PowerManagementCommands::Sleep {
            time: None,
            pmic: true,
            wifi: true,
            disp: true,
            alloff: true,
            vlls0: true,
            vlls1: true,
            vlls2: true,
            vlls3: true,
        }
        .argument(),
        "sleep --pmic --wifi --disp --alloff --vlls0 --vlls1 --vlls2 --vlls3"
    );
}

#[test]
fn firmware_commands_name_the_tool_link() {
    assert_eq!(FirmwareCommands::List.tool_link(), (None, 115200));
    assert_eq!(FirmwareCommands::Reset.tool_link(), (None, 115200));
    assert_eq!(
        FirmwareCommands::Upload {
            file: "fw.bin".to_string(),
            skip_reset: false,
            port: Some("/dev/ttyLP1".to_string()),
            baud: Some(9600),
        }
        .tool_link(),
        (Some("/dev/ttyLP1".to_string()), 9600)
    );
    assert_eq!(
        FirmwareCommands::Upload {
            file: "fw.bin".to_string(),
            skip_reset: true,
            port: None,
            baud: None,
        }
        .tool_link(),
        (None, 115200)
    );
}

#[test]
fn board_reset_is_answered_with_the_notice() {
    let notice = "Board reset sequence initiated. Connection will be lost during power cycle.";
    let reset = Commands::Board(BoardCommands::Reset);
    assert_eq!(Protocol::answer(&reset, Ok(reply("Resetting..."))), Ok(notice.to_string()));
    assert_eq!(Protocol::answer(&reset, Ok(reply(""))), Ok(notice.to_string()));
    assert_eq!(Protocol::answer(&reset, Ok(reply("Error: x"))), Ok(notice.to_string()));
    assert_eq!(
        Protocol::answer(&reset, Err(PowerCliError::NotConnected)),
        Err(PowerCliError::NotConnected)
    );
    let reboot = Commands::System(SystemCommands::Reboot { cold: false });
    assert_eq!(Protocol::answer(&reboot, Ok(reply("Error: x"))), Ok("Error: x".to_string()));
    let shutdown = Commands::Board(BoardCommands::Shutdown);
    assert_eq!(Protocol::answer(&shutdown, Ok(reply("bye"))), Ok("bye".to_string()));
    let status = Commands::Nfc(NfcCommands::Status);
    assert_eq!(Protocol::answer(&status, Ok(reply("ok"))), Ok("ok".to_string()));
    assert_eq!(
        Protocol::answer(&status, Ok(reply("Failed: x"))),
        Err(PowerCliError::ControllerError { message: "Failed: x".to_string() })
    );
    assert_eq!(
        Protocol::answer(&status, Err(PowerCliError::Timeout { timeout: 3 })),
        Err(PowerCliError::Timeout { timeout: 3 })
    );
}
