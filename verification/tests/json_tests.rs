use eink_power_cli::json::{
    field_flag, field_i16, field_i32, field_trimmed, field_u16, field_u8, field_word, BatteryJson,
    Category, GpioJson, Ltc2959Json, NfcJson, ParsedRecord, ResponseParser, SystemInfoJson,
};

fn some(s: &str) -> Option<String> {
    Some(s.to_string())
}

#[test]
fn missing_labels_leave_their_fields_empty() {
    let r = ResponseParser::parse_battery_response("Voltage: 3850 mV\nCurrent: -125 mA");
    assert_eq!(r.voltage_mv, Some(3850));
    assert_eq!(r.current_ma, Some(-125));
    assert_eq!(r.charge_mah, None);
    assert_eq!(r.power_mw, None);
}

#[test]
fn battery_reply_is_read_in_full() {
    let reply = "LTC2959 Measurements:\n  Voltage: 6088 mV\n  Current: -170 mA\n  Charge: 0 mAh\n  Power: -1040 mW\n";
    let r = ResponseParser::parse_battery_response(reply);
    assert_eq!(
        r,
        BatteryJson {
            voltage_mv: Some(6088),
            current_ma: Some(-170),
            charge_mah: Some(0),
            power_mw: Some(-1040),
        }
    );
}

#[test]
fn malformed_field_does_not_hide_the_others() {
    let r = ResponseParser::parse_battery_response(
        "Voltage: 99999 mV\nCurrent: abc mA\nCharge: 12 mAh\nPower: -70000 mW",
    );
    assert_eq!(r.voltage_mv, None);
    assert_eq!(r.current_ma, None);
    assert_eq!(r.charge_mah, Some(12));
    assert_eq!(r.power_mw, Some(-70000));
}

#[test]
fn empty_reply_gives_empty_records() {
    let b = ResponseParser::parse_battery_response("");
    assert_eq!(
        b,
        BatteryJson { voltage_mv: None, current_ma: None, charge_mah: None, power_mw: None }
    );
    let s = ResponseParser::parse_system_info("");
    assert_eq!(
        s,
        SystemInfoJson {
            board: None,
            soc: None,
            version: None,
            build_date: None,
            build_type: None,
            uptime: None,
        }
    );
}

#[test]
fn labels_need_their_unit() {
    let r = ResponseParser::parse_battery_response("Voltage: 3850\nCurrent: 5 mA");
    assert_eq!(r.voltage_mv, None);
    assert_eq!(r.current_ma, Some(5));
    let r = ResponseParser::parse_battery_response("Voltage:3850mV Charge:\n 7 \t mAh");
    assert_eq!(r.voltage_mv, Some(3850));
    assert_eq!(r.charge_mah, Some(7));
}

#[test]
fn system_info_is_read_line_by_line() {
    let reply = "Board: MCXC143VFM E-Ink Power Controller\nSoC: NXP MCXC143VFM (ARM Cortex-M0+)  \nVersion: 2.2.0-+0fa46fb-dirty.298\nBuild: 2025-10-09 11:13:59 UTC\nBuild Type: Production\nSystem Uptime: 0:01:07 (67427 ms)";
    let r = ResponseParser::parse_system_info(reply);
    assert_eq!(r.board, some("MCXC143VFM E-Ink Power Controller"));
    assert_eq!(r.soc, some("NXP MCXC143VFM (ARM Cortex-M0+)"));
    assert_eq!(r.version, some("2.2.0-+0fa46fb-dirty.298"));
    assert_eq!(r.build_date, some("2025-10-09 11:13:59 UTC"));
    assert_eq!(r.build_type, some("Production"));
    assert_eq!(r.uptime, some("0:01:07 (67427 ms)"));
}

#[test]
fn system_info_with_one_label() {
    let r = ResponseParser::parse_system_info("Version: 1.0\r\nuptime unknown");
    assert_eq!(r.version, some("1.0"));
    assert_eq!(r.board, None);
    assert_eq!(r.soc, None);
    assert_eq!(r.build_date, None);
    assert_eq!(r.build_type, None);
    assert_eq!(r.uptime, None);
}

#[test]
fn nfc_status_is_read() {
    let reply = "NTA5332 Status: 0x02\nRF Field: Absent\nNFC Active: NO\nI2C Ready: YES\nEEPROM: Ready\n";
    let r = ResponseParser::parse_nfc_status(reply);
    assert_eq!(
        r,
        NfcJson {
            status_register: some("0x02"),
            rf_field: some("Absent"),
            nfc_active: Some(false),
            i2c_ready: Some(true),
            eeprom_status: some("Ready"),
            sram_status: None,
        }
    );
}

#[test]
fn nfc_flags_are_empty_without_their_literal() {
    let r = ResponseParser::parse_nfc_status("NFC Active: maybe\nI2C Ready: yes");
    assert_eq!(r.nfc_active, None);
    assert_eq!(r.i2c_ready, None);
    assert_eq!(r.status_register, None);
    let r = ResponseParser::parse_nfc_status("NFC Active: YES and NFC Active: NO");
    assert_eq!(r.nfc_active, Some(true));
}

#[test]
fn coulomb_counter_status_is_read() {
    let reply = "LTC2959 Status Register: 0x01\nADC Mode: Smart Sleep\nCoulomb Counter: Disabled\nVoltage: 4100 mV\n";
    let r = ResponseParser::parse_ltc2959_status(reply);
    assert_eq!(
        r,
        Ltc2959Json {
            voltage_mv: Some(4100),
            current_ma: None,
            charge_mah: None,
            power_mw: None,
            status_register: some("0x01"),
            adc_mode: some("Smart Sleep"),
            coulomb_counter: some("Disabled"),
            charge_complete: None,
        }
    );
}

#[test]
fn gpio_reply_is_read() {
    let r = ResponseParser::parse_gpio_response("GPIO A0: 1 (OUTPUT, HIGH)", "gpioa", 0);
    assert_eq!(
        r,
        GpioJson {
            port: "gpioa".to_string(),
            pin: 0,
            value: Some(1),
            direction: some("OUTPUT"),
            state: some("HIGH"),
        }
    );
    let r = ResponseParser::parse_gpio_response("Pin value: 0", "gpiob", 7);
    assert_eq!(r.port, "gpiob");
    assert_eq!(r.pin, 7);
    assert_eq!(r.value, Some(0));
    assert_eq!(r.direction, None);
    assert_eq!(r.state, None);
    let r = ResponseParser::parse_gpio_response("GPIO A0: 2 INPUT OUTPUT LOW HIGH", "a", 1);
    assert_eq!(r.value, None);
    assert_eq!(r.direction, some("INPUT"));
    assert_eq!(r.state, some("HIGH"));
}

#[test]
fn captured_texts_become_fields() {
    assert_eq!(field_u16(&some("3850")), Some(3850));
    assert_eq!(field_u16(&some("65536")), None);
    assert_eq!(field_u16(&None), None);
    assert_eq!(field_u8(&some("1")), Some(1));
    assert_eq!(field_u8(&some("256")), None);
    assert_eq!(field_i16(&some("-125")), Some(-125));
    assert_eq!(field_i16(&some("-32769")), None);
    assert_eq!(field_i32(&some("-1040")), Some(-1040));
    assert_eq!(field_i32(&some("2147483647")), Some(2147483647));
    assert_eq!(field_i32(&some("2147483648")), None);
    assert_eq!(field_i32(&some("-2147483648")), Some(-2147483648));
    assert_eq!(field_trimmed(&some("  Ready \r")), some("Ready"));
    assert_eq!(field_trimmed(&None), None);
    let text: Vec<char> = "Active: NO".chars().collect();
    assert_eq!(field_flag(&text, "Active: YES", "Active: NO"), Some(false));
    assert_eq!(field_flag(&text, "Ready: YES", "Ready: NO"), None);
    assert_eq!(field_word(&text, "YES", "NO"), some("NO"));
    assert_eq!(field_word(&text, "HIGH", "LOW"), None);
}

#[test]
fn records_are_built_from_captures() {
    let b = BatteryJson::from_captures(&some("1"), &some("-2"), &None, &some("x"));
    assert_eq!(
        b,
        BatteryJson { voltage_mv: Some(1), current_ma: Some(-2), charge_mah: None, power_mw: None }
    );
    let s = SystemInfoJson::from_captures(&some(" b "), &None, &some("v"), &None, &None, &None);
    assert_eq!(s.board, some("b"));
    assert_eq!(s.soc, None);
    assert_eq!(s.version, some("v"));
    let n = NfcJson::from_captures("NFC Active: YES", some("0x1"), &None, &some(" ok "));
    assert_eq!(n.status_register, some("0x1"));
    assert_eq!(n.nfc_active, Some(true));
    assert_eq!(n.i2c_ready, None);
    assert_eq!(n.eeprom_status, some("ok"));
    let l = Ltc2959Json::from_captures(b.clone(), None, &some("Sleep "), &None);
    assert_eq!(l.voltage_mv, Some(1));
    assert_eq!(l.current_ma, Some(-2));
    assert_eq!(l.adc_mode, some("Sleep"));
    let g = GpioJson::from_captures("LOW", &some("0"), "p", 3);
    assert_eq!(g.value, Some(0));
    assert_eq!(g.state, some("LOW"));
    assert_eq!(g.pin, 3);
}

#[test]
fn commands_are_sorted_into_categories() {
    assert_eq!(ResponseParser::category("battery read"), Category::Battery);
    assert_eq!(ResponseParser::category("power coulomb"), Category::Battery);
    assert_eq!(ResponseParser::category("system info"), Category::System);
    assert_eq!(ResponseParser::category("version"), Category::System);
    assert_eq!(ResponseParser::category("nfc status"), Category::Nfc);
    assert_eq!(ResponseParser::category("ltc2959 status"), Category::Ltc2959);
    assert_eq!(ResponseParser::category("gpio get"), Category::Gpio);
    assert_eq!(ResponseParser::category("rtc status"), Category::Rtc);
    assert_eq!(ResponseParser::category("ping"), Category::Generic);
    assert_eq!(ResponseParser::category("system battery"), Category::Battery);
}

#[test]
fn replies_are_classified_by_command() {
    let reply = "Voltage: 3850 mV";
    match ResponseParser::classify("battery read", reply) {
        ParsedRecord::Battery(b) => assert_eq!(b.voltage_mv, Some(3850)),
        other => panic!("not a battery record: {:?}", other),
    }
    match ResponseParser::classify("ltc2959 read", reply) {
        ParsedRecord::Ltc2959(l) => assert_eq!(l.voltage_mv, Some(3850)),
        other => panic!("not a coulomb-counter record: {:?}", other),
    }
    match ResponseParser::classify("gpio get", "Pin value: 1") {
        ParsedRecord::Gpio(g) => {
            assert_eq!(g.port, "unknown");
            assert_eq!(g.pin, 0);
            assert_eq!(g.value, Some(1));
        }
        other => panic!("not a GPIO record: {:?}", other),
    }
    assert_eq!(ResponseParser::classify("ping", "pong"), ParsedRecord::Raw("pong".to_string()));
    assert_eq!(
        ResponseParser::classify("rtc status", "RTC: ok"),
        ParsedRecord::Raw("RTC: ok".to_string())
    );
}

#[test]
fn same_reply_gives_the_same_record_twice() {
    let reply = "Board: X\nVersion: 1\nVoltage: 3 mV";
    for command in ["battery read", "system info", "nfc status", "ltc2959 read", "gpio get", "ping"] {
        let first = ResponseParser::classify(command, reply);
        let second = ResponseParser::classify(command, reply);
        assert_eq!(first, second);
    }
}
