use eink_power_cli::cli::{
    Cli, OutputFormat, BatteryCommands, BoardCommands, CommCommands, Commands, DefaultsCommands, EraseCommands,
    ExternalRtcAction, FirmwareCommands, GpioCommands, Ltc2959Commands, NfcCommands,
    PowerCommands, PowerManagementCommands, PowerState, RtcCommands, SystemCommands,
};
use eink_power_cli::connection::{Connection, Probe};
use eink_power_cli::error::PowerCliError;
use eink_power_cli::framing::{Action, Event};
use eink_power_cli::protocol::Protocol;
use eink_power_cli::reply::Terminators;

fn line(c: Commands) -> Option<String> {
    c.line()
}

fn some(s: &str) -> Option<String> {
    Some(s.to_string())
}

#[test]
fn every_command_has_its_line() {
    assert_eq!(line(Commands::Ping), some("ping"));
    assert_eq!(line(Commands::Version), some("version"));
    assert_eq!(line(Commands::System(SystemCommands::Info)), some("system info"));
    assert_eq!(line(Commands::System(SystemCommands::Uptime)), some("system uptime"));
    assert_eq!(line(Commands::System(SystemCommands::Reboot { cold: false })), some("system reset"));
    assert_eq!(
        line(Commands::System(SystemCommands::Reboot { cold: true })),
        some("system reset cold")
    );
    assert_eq!(
        line(Commands::System(SystemCommands::DfuMode { timeout: 0 })),
        some("system dfu-mode 0")
    );
    assert_eq!(
        line(Commands::System(SystemCommands::Erase(EraseCommands::App))),
        some("system erase app")
    );
    assert_eq!(
        line(Commands::Power(PowerCommands::Pmic { state: PowerState::On })),
        some("power pmic on")
    );
    assert_eq!(
        line(Commands::Power(PowerCommands::Wifi { state: PowerState::Off })),
        some("power wifi off")
    );
    assert_eq!(
        line(Commands::Power(PowerCommands::Disp { state: PowerState::Status })),
        some("power disp status")
    );
    assert_eq!(line(Commands::Power(PowerCommands::Stats)), some("power stats"));
    assert_eq!(line(Commands::Power(PowerCommands::Coulomb)), some("ltc2959 read"));
    assert_eq!(line(Commands::Battery(BatteryCommands::Read)), some("ltc2959 read"));
    assert_eq!(line(Commands::Battery(BatteryCommands::Status)), some("ltc2959 status"));
    assert_eq!(line(Commands::Battery(BatteryCommands::Enable)), some("ltc2959 enable"));
    assert_eq!(line(Commands::Battery(BatteryCommands::Disable)), some("ltc2959 disable"));
    assert_eq!(
        line(Commands::Gpio(GpioCommands::Get { port: "gpioa".to_string(), pin: 3 })),
        some("gpio get gpioa 3")
    );
    assert_eq!(
        line(Commands::Gpio(GpioCommands::SetPin { port: "gpiob".to_string(), pin: 12, value: 1 })),
        some("gpio set gpiob 12 1")
    );
    assert_eq!(
        line(Commands::Gpio(GpioCommands::Config {
            port: "gpioc".to_string(),
            pin: 0,
            mode: "input".to_string(),
        })),
        some("gpio config gpioc 0 input")
    );
    assert_eq!(line(Commands::Nfc(NfcCommands::Rfdbg)), some("nfc rfdbg"));
    assert_eq!(line(Commands::Board(BoardCommands::Reset)), some("board reset"));
    assert_eq!(line(Commands::Board(BoardCommands::Shutdown)), some("board shutdown"));
    assert_eq!(
        line(Commands::Ltc2959(Ltc2959Commands::SetCharge { charge: 4294967295 })),
        some("ltc2959 set_charge 4294967295")
    );
    assert_eq!(line(Commands::Pm(PowerManagementCommands::Wake)), some("pm wake"));
    assert_eq!(
        line(Commands::Pm(PowerManagementCommands::Defaults(DefaultsCommands::Save))),
        some("pm defaults save")
    );
    assert_eq!(line(Commands::Rtc(RtcCommands::Status)), some("rtc status"));
    assert_eq!(line(Commands::Rtc(RtcCommands::Get)), some("rtc get"));
    assert_eq!(line(Commands::Rtc(RtcCommands::Show)), some("rtc show"));
    assert_eq!(
        line(Commands::Rtc(RtcCommands::Config { action: ExternalRtcAction::Auto })),
        some("rtc config auto")
    );
    assert_eq!(
        line(Commands::Comm(CommCommands::BtWake { state: PowerState::On })),
        some("comm bt_wake on")
    );
    assert_eq!(
        line(Commands::Comm(CommCommands::WlWake { state: PowerState::Status })),
        some("comm wl_wake status")
    );
    assert_eq!(line(Commands::Firmware(FirmwareCommands::List)), None);
    assert_eq!(line(Commands::Monitor { interval: 30, continuous: true }), None);
    assert_eq!(line(Commands::Batch { file: "cmds.txt".to_string() }), None);
}

#[test]
fn resets_sever_the_link() {
    assert!(Commands::Board(BoardCommands::Reset).severs_link());
    assert!(Commands::System(SystemCommands::Reboot { cold: false }).severs_link());
    assert!(Commands::System(SystemCommands::Reboot { cold: true }).severs_link());
    assert!(!Commands::Board(BoardCommands::Shutdown).severs_link());
    assert!(!Commands::System(SystemCommands::Info).severs_link());
    assert!(!Commands::Nfc(NfcCommands::Reset).severs_link());
    assert!(!Commands::Ping.severs_link());
    assert!(!Commands::Firmware(FirmwareCommands::Reset).severs_link());
}

#[test]
fn replies_are_shown_under_a_name() {
    assert_eq!(Commands::Version.report_name(), Some("version"));
    assert_eq!(Commands::Ping.report_name(), Some("ping"));
    assert_eq!(Commands::Power(PowerCommands::Coulomb).report_name(), Some("power coulomb"));
    assert_eq!(Commands::Power(PowerCommands::Stats).report_name(), None);
    assert_eq!(
        Commands::System(SystemCommands::Reboot { cold: true }).report_name(),
        Some("system reboot")
    );
    assert_eq!(
        Commands::System(SystemCommands::DfuMode { timeout: 20 }).report_name(),
        Some("system dfu-mode")
    );
    assert_eq!(
        Commands::System(SystemCommands::Erase(EraseCommands::Defaults)).report_name(),
        Some("system erase defaults")
    );
    assert_eq!(Commands::Battery(BatteryCommands::Enable).report_name(), Some("battery enable"));
    assert_eq!(
        Commands::Rtc(RtcCommands::Config { action: ExternalRtcAction::Wake }).report_name(),
        Some("rtc config")
    );
    assert_eq!(
        Commands::Firmware(FirmwareCommands::Info).report_name(),
        Some("firmware info")
    );
    assert_eq!(Commands::Nfc(NfcCommands::Status).report_name(), None);
    assert_eq!(Commands::Board(BoardCommands::Reset).report_name(), None);
    assert_eq!(Commands::Pm(PowerManagementCommands::Stats).report_name(), None);
    assert_eq!(Commands::Monitor { interval: 1, continuous: false }.report_name(), None);
}

#[test]
fn execute_starts_the_round_trip_of_a_command() {
    let mut link = Connection::new("/dev/ttyUSB0", 115200).expect("a link");
    let closed = Protocol::new(link.clone());
    assert_eq!(
        closed.execute(&Commands::Ping, Terminators::standard(), 0).map(|r| r.err()),
        Some(Some(PowerCliError::NotConnected))
    );
    assert_eq!(
        closed
            .execute(&Commands::Board(BoardCommands::Reset), Terminators::standard(), 0)
            .map(|r| r.err()),
        Some(Some(PowerCliError::NotConnected))
    );
    assert!(closed
        .execute(&Commands::Firmware(FirmwareCommands::List), Terminators::standard(), 0)
        .is_none());
    link.connect(Probe::Opened).expect("opened");
    let open = Protocol::new(link);
    let mut x = open
        .execute(&Commands::Nfc(NfcCommands::Status), Terminators::standard(), 0)
        .expect("a line")
        .expect("started");
    assert_eq!(x.step(&Event::Quiet, 0), Action::Write);
    assert_eq!(x.wire_line(), "nfc status\n");
    x.step(&Event::Written, 0);
    assert_eq!(x.step(&Event::Quiet, 500), Action::Read { wait_ms: 100 });
    let mut x = open
        .execute(&Commands::System(SystemCommands::Reboot { cold: false }), Terminators::standard(), 0)
        .expect("a line")
        .expect("started");
    assert_eq!(x.step(&Event::Quiet, 0), Action::Write);
    assert_eq!(x.wire_line(), "system reset\n");
    x.step(&Event::Written, 0);
    assert_eq!(x.step(&Event::Quiet, 500), Action::Finish);
    assert!(matches!(x.outcome(), Some(Ok(_))));
    let bad = Commands::Gpio(GpioCommands::Get { port: "a\nb".to_string(), pin: 1 });
    assert_eq!(
        open.execute(&bad, Terminators::standard(), 0).map(|r| r.err()),
        Some(Some(PowerCliError::InvalidCommand { command: "gpio get a\nb 1".to_string() }))
    );
}

#[test]
fn settings_describe_the_link() {
    let cli = Cli {
        device: "/dev/ttyLP2".to_string(),
        baud: 115200,
        timeout: 9,
        format: OutputFormat::Json,
        config: None,
        verbose: false,
        quiet: true,
        command: Some(Commands::Ping),
    };
    let link = cli.connection().expect("a link");
    assert_eq!(link.device_path(), "/dev/ttyLP2");
    assert_eq!(link.baud_rate(), 115200);
    assert_eq!(link.timeout_secs(), 9);
    assert!(!link.is_connected());
}
