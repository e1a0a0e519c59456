//! Reply classifier: turns the free text of a controller reply into records
//! of optional fields. A field is present only where its label, in its
//! expected shape, stands in the reply; a malformed or missing field never
//! hides the others.

use vstd::prelude::*;
use vstd::string::StringExecFns;
use crate::chars::{
    contains, includes, lemma_trimmed_occurs, parse_signed, parse_unsigned, signed_reading, to_chars,
    to_text, trim, trimmed, unsigned_reading,
};

verus! {

/// Battery measurement.
#[derive(Debug, Clone, PartialEq, Eq)]
pub struct BatteryJson {
    pub voltage_mv: Option<u16>,
    pub current_ma: Option<i16>,
    pub charge_mah: Option<u16>,
    pub power_mw: Option<i32>,
}

/// Power-management statistics.
#[derive(Debug, Clone, PartialEq, Eq)]
pub struct PowerStatsJson {
    pub sleep_cycles: Option<u32>,
    pub wake_cycles: Option<u32>,
    pub ltc2959_state: Option<String>,
    pub nfc_state: Option<String>,
    pub uart_state: Option<String>,
    pub uptime_ms: Option<u64>,
}

/// System information.
#[derive(Debug, Clone, PartialEq, Eq)]
pub struct SystemInfoJson {
    pub board: Option<String>,
    pub soc: Option<String>,
    pub version: Option<String>,
    pub build_date: Option<String>,
    pub build_type: Option<String>,
    pub uptime: Option<String>,
}

/// State of one GPIO pin.
#[derive(Debug, Clone, PartialEq, Eq)]
pub struct GpioJson {
    pub port: String,
    pub pin: u8,
    pub value: Option<u8>,
    pub direction: Option<String>,
    pub state: Option<String>,
}

/// NFC front-end status.
#[derive(Debug, Clone, PartialEq, Eq)]
pub struct NfcJson {
    pub status_register: Option<String>,
    pub rf_field: Option<String>,
    pub nfc_active: Option<bool>,
    pub i2c_ready: Option<bool>,
    pub eeprom_status: Option<String>,
    pub sram_status: Option<String>,
}

/// Coulomb-counter status.
#[derive(Debug, Clone, PartialEq, Eq)]
pub struct Ltc2959Json {
    pub voltage_mv: Option<u16>,
    pub current_ma: Option<i16>,
    pub charge_mah: Option<u16>,
    pub power_mw: Option<i32>,
    pub status_register: Option<String>,
    pub adc_mode: Option<String>,
    pub coulomb_counter: Option<String>,
    pub charge_complete: Option<bool>,
}

/// The text that the first capture group of `pattern` covers in the leftmost
/// match of `pattern` in `text`, as the `regex` crate finds it. `None` where
/// `pattern` is no regular expression, where it matches nowhere in `text`, and
/// where the group took no part in the match.
pub uninterp spec fn first_group(pattern: Seq<char>, text: Seq<char>) -> Option<Seq<char>>;

/// The characters of an optional string.
pub open spec fn text_of(s: Option<String>) -> Option<Seq<char>> {
    match s {
        Some(t) => Some(t@),
        None => None,
    }
}

/// Calls `regex::Regex::new` on `pattern`, `Regex::captures` on `text`, and
/// `Captures::get(1)` on what was found. Trusted: the result is the text of
/// the first capture group, named by `first_group`, and, being cut out of
/// `text`, occurs in it.
#[verifier::external_body]
fn capture(pattern: &str, text: &str) -> (r: Option<String>)
    ensures
        text_of(r) == first_group(pattern@, text@),
        r matches Some(s) ==> contains(text@, s@),
{
    let re = regex::Regex::new(pattern).ok()?;
    let found = re.captures(text)?;
    let group = found.get(1)?;
    Some(group.as_str().to_string())
}

/// The voltage: digits between the label and the unit.
pub const VOLTAGE_PATTERN: &'static str = r"Voltage:\s*(\d+)\s*mV";

/// The current: digits, with an optional sign, between the label and the unit.
pub const CURRENT_PATTERN: &'static str = r"Current:\s*(-?\d+)\s*mA";

/// The charge: digits between the label and the unit.
pub const CHARGE_PATTERN: &'static str = r"Charge:\s*(\d+)\s*mAh";

/// The power: digits, with an optional sign, between the label and the unit.
pub const POWER_PATTERN: &'static str = r"Power:\s*(-?\d+)\s*mW";

/// The board: what follows the label on its line.
pub const BOARD_PATTERN: &'static str = r"Board:\s*(.+)";

/// The SoC: what follows the label on its line.
pub const SOC_PATTERN: &'static str = r"SoC:\s*(.+)";

/// The version: what follows the label on its line.
pub const VERSION_PATTERN: &'static str = r"Version:\s*(.+)";

/// The build date: what follows the label on its line.
pub const BUILD_PATTERN: &'static str = r"Build:\s*(.+)";

/// The build type: what follows the label on its line.
pub const BUILD_TYPE_PATTERN: &'static str = r"Build Type:\s*(.+)";

/// The uptime: what follows the label on its line.
pub const UPTIME_PATTERN: &'static str = r"System Uptime:\s*(.+)";

/// The status register of the NFC front end, in hexadecimal.
pub const NFC_STATUS_PATTERN: &'static str = r"NTA5332 Status:\s*(0x[0-9A-Fa-f]+)";

/// The RF field: what follows the label on its line.
pub const RF_FIELD_PATTERN: &'static str = r"RF Field:\s*(.+)";

/// The EEPROM status: what follows the label on its line.
pub const EEPROM_PATTERN: &'static str = r"EEPROM:\s*(.+)";

/// The status register of the coulomb counter, in hexadecimal.
pub const LTC_STATUS_PATTERN: &'static str = r"LTC2959 Status Register:\s*(0x[0-9A-Fa-f]+)";

/// The ADC mode: what follows the label on its line.
pub const ADC_MODE_PATTERN: &'static str = r"ADC Mode:\s*(.+)";

/// The state of the coulomb counter: what follows the label on its line.
pub const COULOMB_PATTERN: &'static str = r"Coulomb Counter:\s*(.+)";

/// The value of a pin: 0 or 1 after either of two labels.
pub const GPIO_VALUE_PATTERN: &'static str = r"(?:GPIO [A-Z]\d+:\s*|Pin value:\s*)([01])";

/// The unsigned number, no greater than `limit`, that a captured text writes.
pub open spec fn unsigned_field(found: Option<Seq<char>>, limit: nat) -> Option<nat> {
    match found {
        Some(s) => unsigned_reading(s, limit),
        None => None,
    }
}

/// The signed number, between `-below` and `above`, that a captured text writes.
pub open spec fn signed_field(found: Option<Seq<char>>, below: nat, above: nat) -> Option<int> {
    match found {
        Some(s) => signed_reading(s, below, above),
        None => None,
    }
}

/// A captured text without the white space that surrounds it.
pub open spec fn trimmed_field(found: Option<Seq<char>>) -> Option<Seq<char>> {
    match found {
        Some(s) => Some(trimmed(s)),
        None => None,
    }
}

/// `Some(true)` where `yes` occurs in `text`, else `Some(false)` where `no`
/// occurs in it, else nothing.
pub open spec fn flag_field(text: Seq<char>, yes: Seq<char>, no: Seq<char>) -> Option<bool> {
    if contains(text, yes) {
        Some(true)
    } else if contains(text, no) {
        Some(false)
    } else {
        None
    }
}

/// Reads a captured text as a 16-bit unsigned number; empty where nothing was
/// captured or the text is no such number.
pub fn field_u16(found: &Option<String>) -> (r: Option<u16>)
    ensures
        r is Some <==> unsigned_field(text_of(*found), 0xffff) is Some,
        r matches Some(v) ==> unsigned_field(text_of(*found), 0xffff) == Some(v as nat),
{
    match found {
        Some(s) => {
            let digits = to_chars(s.as_str());
            match parse_unsigned(digits.as_slice(), 0xffff) {
                Some(v) => Some(v as u16),
                None => None,
            }
        },
        None => None,
    }
}

/// Reads a captured text as an 8-bit unsigned number; empty where nothing was
/// captured or the text is no such number.
pub fn field_u8(found: &Option<String>) -> (r: Option<u8>)
    ensures
        r is Some <==> unsigned_field(text_of(*found), 0xff) is Some,
        r matches Some(v) ==> unsigned_field(text_of(*found), 0xff) == Some(v as nat),
{
    match found {
        Some(s) => {
            let digits = to_chars(s.as_str());
            match parse_unsigned(digits.as_slice(), 0xff) {
                Some(v) => Some(v as u8),
                None => None,
            }
        },
        None => None,
    }
}

/// Reads a captured text as a 16-bit signed number; empty where nothing was
/// captured or the text is no such number.
pub fn field_i16(found: &Option<String>) -> (r: Option<i16>)
    ensures
        r is Some <==> signed_field(text_of(*found), 0x8000, 0x7fff) is Some,
        r matches Some(v) ==> signed_field(text_of(*found), 0x8000, 0x7fff) == Some(v as int),
{
    match found {
        Some(s) => {
            let digits = to_chars(s.as_str());
            match parse_signed(digits.as_slice(), 0x8000, 0x7fff) {
                Some(v) => Some(v as i16),
                None => None,
            }
        },
        None => None,
    }
}

/// Reads a captured text as a 32-bit signed number; empty where nothing was
/// captured or the text is no such number.
pub fn field_i32(found: &Option<String>) -> (r: Option<i32>)
    ensures
        r is Some <==> signed_field(text_of(*found), 0x8000_0000, 0x7fff_ffff) is Some,
        r matches Some(v) ==> signed_field(text_of(*found), 0x8000_0000, 0x7fff_ffff) == Some(
            v as int,
        ),
{
    match found {
        Some(s) => {
            let digits = to_chars(s.as_str());
            match parse_signed(digits.as_slice(), 0x8000_0000, 0x7fff_ffff) {
                Some(v) => Some(v as i32),
                None => None,
            }
        },
        None => None,
    }
}

/// A captured text without the white space around it; empty where nothing was
/// captured.
pub fn field_trimmed(found: &Option<String>) -> (r: Option<String>)
    ensures
        text_of(r) == trimmed_field(text_of(*found)),
{
    match found {
        Some(s) => {
            let all = to_chars(s.as_str());
            let kept = trim(all.as_slice());
            Some(to_text(kept.as_slice()))
        },
        None => None,
    }
}

/// Derives a yes/no field from which of two literal texts occurs in the reply.
pub fn field_flag(text: &[char], yes: &str, no: &str) -> (r: Option<bool>)
    ensures
        r == flag_field(text@, yes@, no@),
{
    let y = to_chars(yes);
    let n = to_chars(no);
    if includes(text, y.as_slice()) {
        Some(true)
    } else if includes(text, n.as_slice()) {
        Some(false)
    } else {
        None
    }
}

/// Narrows an optional natural number that fits in 16 bits.
pub open spec fn as_u16(v: Option<nat>) -> Option<u16> {
    match v {
        Some(n) => Some(n as u16),
        None => None,
    }
}

/// Narrows an optional natural number that fits in 8 bits.
pub open spec fn as_u8(v: Option<nat>) -> Option<u8> {
    match v {
        Some(n) => Some(n as u8),
        None => None,
    }
}

/// Narrows an optional integer that fits in 16 bits.
pub open spec fn as_i16(v: Option<int>) -> Option<i16> {
    match v {
        Some(n) => Some(n as i16),
        None => None,
    }
}

/// Narrows an optional integer that fits in 32 bits.
pub open spec fn as_i32(v: Option<int>) -> Option<i32> {
    match v {
        Some(n) => Some(n as i32),
        None => None,
    }
}

/// The battery record that four captured texts give, each field on its own.
pub open spec fn battery_record(
    voltage: Option<Seq<char>>,
    current: Option<Seq<char>>,
    charge: Option<Seq<char>>,
    power: Option<Seq<char>>,
) -> BatteryJson {
    BatteryJson {
        voltage_mv: as_u16(unsigned_field(voltage, 0xffff)),
        current_ma: as_i16(signed_field(current, 0x8000, 0x7fff)),
        charge_mah: as_u16(unsigned_field(charge, 0xffff)),
        power_mw: as_i32(signed_field(power, 0x8000_0000, 0x7fff_ffff)),
    }
}

/// The battery record that a reply gives.
pub open spec fn battery_reading(response: Seq<char>) -> BatteryJson {
    battery_record(
        first_group(VOLTAGE_PATTERN@, response),
        first_group(CURRENT_PATTERN@, response),
        first_group(CHARGE_PATTERN@, response),
        first_group(POWER_PATTERN@, response),
    )
}

impl BatteryJson {
    /// Builds the record from the texts captured for its four fields. A field
    /// is empty where nothing was captured for it or the text is no number of
    /// its type; the other fields are not affected.
    pub fn from_captures(
        voltage: &Option<String>,
        current: &Option<String>,
        charge: &Option<String>,
        power: &Option<String>,
    ) -> (r: BatteryJson)
        ensures
            r == battery_record(
                text_of(*voltage),
                text_of(*current),
                text_of(*charge),
                text_of(*power),
            ),
    {
        BatteryJson {
            voltage_mv: field_u16(voltage),
            current_ma: field_i16(current),
            charge_mah: field_u16(charge),
            power_mw: field_i32(power),
        }
    }
}

/// Mathematical content of a [`SystemInfoJson`].
pub struct SystemInfoView {
    pub board: Option<Seq<char>>,
    pub soc: Option<Seq<char>>,
    pub version: Option<Seq<char>>,
    pub build_date: Option<Seq<char>>,
    pub build_type: Option<Seq<char>>,
    pub uptime: Option<Seq<char>>,
}

impl View for SystemInfoJson {
    type V = SystemInfoView;

    open spec fn view(&self) -> SystemInfoView {
        SystemInfoView {
            board: text_of(self.board),
            soc: text_of(self.soc),
            version: text_of(self.version),
            build_date: text_of(self.build_date),
            build_type: text_of(self.build_type),
            uptime: text_of(self.uptime),
        }
    }
}

/// The system record that six captured texts give, each field on its own.
pub open spec fn system_record(
    board: Option<Seq<char>>,
    soc: Option<Seq<char>>,
    version: Option<Seq<char>>,
    build_date: Option<Seq<char>>,
    build_type: Option<Seq<char>>,
    uptime: Option<Seq<char>>,
) -> SystemInfoView {
    SystemInfoView {
        board: trimmed_field(board),
        soc: trimmed_field(soc),
        version: trimmed_field(version),
        build_date: trimmed_field(build_date),
        build_type: trimmed_field(build_type),
        uptime: trimmed_field(uptime),
    }
}

/// The system record that a reply gives.
pub open spec fn system_reading(response: Seq<char>) -> SystemInfoView {
    system_record(
        first_group(BOARD_PATTERN@, response),
        first_group(SOC_PATTERN@, response),
        first_group(VERSION_PATTERN@, response),
        first_group(BUILD_PATTERN@, response),
        first_group(BUILD_TYPE_PATTERN@, response),
        first_group(UPTIME_PATTERN@, response),
    )
}

impl SystemInfoJson {
    /// Builds the record from the texts captured for its six fields, trimming
    /// each; a field is empty where nothing was captured for it.
    pub fn from_captures(
        board: &Option<String>,
        soc: &Option<String>,
        version: &Option<String>,
        build_date: &Option<String>,
        build_type: &Option<String>,
        uptime: &Option<String>,
    ) -> (r: SystemInfoJson)
        ensures
            r@ == system_record(
                text_of(*board),
                text_of(*soc),
                text_of(*version),
                text_of(*build_date),
                text_of(*build_type),
                text_of(*uptime),
            ),
    {
        SystemInfoJson {
            board: field_trimmed(board),
            soc: field_trimmed(soc),
            version: field_trimmed(version),
            build_date: field_trimmed(build_date),
            build_type: field_trimmed(build_type),
            uptime: field_trimmed(uptime),
        }
    }
}

/// Mathematical content of an [`NfcJson`].
pub struct NfcView {
    pub status_register: Option<Seq<char>>,
    pub rf_field: Option<Seq<char>>,
    pub nfc_active: Option<bool>,
    pub i2c_ready: Option<bool>,
    pub eeprom_status: Option<Seq<char>>,
    pub sram_status: Option<Seq<char>>,
}

impl View for NfcJson {
    type V = NfcView;

    open spec fn view(&self) -> NfcView {
        NfcView {
            status_register: text_of(self.status_register),
            rf_field: text_of(self.rf_field),
            nfc_active: self.nfc_active,
            i2c_ready: self.i2c_ready,
            eeprom_status: text_of(self.eeprom_status),
            sram_status: text_of(self.sram_status),
        }
    }
}

/// The NFC record that a reply and three texts captured from it give. The
/// status register is taken as captured, the other texts are trimmed, and the
/// two flags follow from the literal texts that the reply holds.
pub open spec fn nfc_record(
    response: Seq<char>,
    status: Option<Seq<char>>,
    rf_field: Option<Seq<char>>,
    eeprom: Option<Seq<char>>,
) -> NfcView {
    NfcView {
        status_register: status,
        rf_field: trimmed_field(rf_field),
        nfc_active: flag_field(response, "NFC Active: YES"@, "NFC Active: NO"@),
        i2c_ready: flag_field(response, "I2C Ready: YES"@, "I2C Ready: NO"@),
        eeprom_status: trimmed_field(eeprom),
        sram_status: None,
    }
}

/// The NFC record that a reply gives.
pub open spec fn nfc_reading(response: Seq<char>) -> NfcView {
    nfc_record(
        response,
        first_group(NFC_STATUS_PATTERN@, response),
        first_group(RF_FIELD_PATTERN@, response),
        first_group(EEPROM_PATTERN@, response),
    )
}

impl NfcJson {
    /// Builds the record from the reply and the texts captured from it.
    pub fn from_captures(
        response: &str,
        status: Option<String>,
        rf_field: &Option<String>,
        eeprom: &Option<String>,
    ) -> (r: NfcJson)
        ensures
            r@ == nfc_record(response@, text_of(status), text_of(*rf_field), text_of(*eeprom)),
    {
        let text = to_chars(response);
        NfcJson {
            status_register: status,
            rf_field: field_trimmed(rf_field),
            nfc_active: field_flag(text.as_slice(), "NFC Active: YES", "NFC Active: NO"),
            i2c_ready: field_flag(text.as_slice(), "I2C Ready: YES", "I2C Ready: NO"),
            eeprom_status: field_trimmed(eeprom),
            sram_status: None,
        }
    }
}

/// Mathematical content of an [`Ltc2959Json`].
pub struct Ltc2959View {
    pub measured: BatteryJson,
    pub status_register: Option<Seq<char>>,
    pub adc_mode: Option<Seq<char>>,
    pub coulomb_counter: Option<Seq<char>>,
    pub charge_complete: Option<bool>,
}

impl View for Ltc2959Json {
    type V = Ltc2959View;

    open spec fn view(&self) -> Ltc2959View {
        Ltc2959View {
            measured: BatteryJson {
                voltage_mv: self.voltage_mv,
                current_ma: self.current_ma,
                charge_mah: self.charge_mah,
                power_mw: self.power_mw,
            },
            status_register: text_of(self.status_register),
            adc_mode: text_of(self.adc_mode),
            coulomb_counter: text_of(self.coulomb_counter),
            charge_complete: self.charge_complete,
        }
    }
}

/// The coulomb-counter record that a battery record and three captured texts
/// give.
pub open spec fn ltc2959_record(
    measured: BatteryJson,
    status: Option<Seq<char>>,
    adc_mode: Option<Seq<char>>,
    counter: Option<Seq<char>>,
) -> Ltc2959View {
    Ltc2959View {
        measured,
        status_register: status,
        adc_mode: trimmed_field(adc_mode),
        coulomb_counter: trimmed_field(counter),
        charge_complete: None,
    }
}

/// The coulomb-counter record that a reply gives.
pub open spec fn ltc2959_reading(response: Seq<char>) -> Ltc2959View {
    ltc2959_record(
        battery_reading(response),
        first_group(LTC_STATUS_PATTERN@, response),
        first_group(ADC_MODE_PATTERN@, response),
        first_group(COULOMB_PATTERN@, response),
    )
}

impl Ltc2959Json {
    /// Builds the record from the measurements and the texts captured for its
    /// three status fields.
    pub fn from_captures(
        measured: BatteryJson,
        status: Option<String>,
        adc_mode: &Option<String>,
        counter: &Option<String>,
    ) -> (r: Ltc2959Json)
        ensures
            r@ == ltc2959_record(
                measured,
                text_of(status),
                text_of(*adc_mode),
                text_of(*counter),
            ),
    {
        Ltc2959Json {
            voltage_mv: measured.voltage_mv,
            current_ma: measured.current_ma,
            charge_mah: measured.charge_mah,
            power_mw: measured.power_mw,
            status_register: status,
            adc_mode: field_trimmed(adc_mode),
            coulomb_counter: field_trimmed(counter),
            charge_complete: None,
        }
    }
}

/// Mathematical content of a [`GpioJson`].
pub struct GpioView {
    pub port: Seq<char>,
    pub pin: u8,
    pub value: Option<u8>,
    pub direction: Option<Seq<char>>,
    pub state: Option<Seq<char>>,
}

impl View for GpioJson {
    type V = GpioView;

    open spec fn view(&self) -> GpioView {
        GpioView {
            port: self.port@,
            pin: self.pin,
            value: self.value,
            direction: text_of(self.direction),
            state: text_of(self.state),
        }
    }
}

/// The first of two words that occurs in `text`, if either does.
pub open spec fn word_field(text: Seq<char>, first: Seq<char>, second: Seq<char>) -> Option<
    Seq<char>,
> {
    if contains(text, first) {
        Some(first)
    } else if contains(text, second) {
        Some(second)
    } else {
        None
    }
}

/// The GPIO record that a reply, the text captured for the pin's value, and
/// the pin's port and number give.
pub open spec fn gpio_record(
    response: Seq<char>,
    value: Option<Seq<char>>,
    port: Seq<char>,
    pin: u8,
) -> GpioView {
    GpioView {
        port,
        pin,
        value: as_u8(unsigned_field(value, 0xff)),
        direction: word_field(response, "INPUT"@, "OUTPUT"@),
        state: word_field(response, "HIGH"@, "LOW"@),
    }
}

/// The GPIO record that a reply gives for a pin.
pub open spec fn gpio_reading(response: Seq<char>, port: Seq<char>, pin: u8) -> GpioView {
    gpio_record(response, first_group(GPIO_VALUE_PATTERN@, response), port, pin)
}

/// Picks the first of two words that occurs in the reply.
pub fn field_word(text: &[char], first: &str, second: &str) -> (r: Option<String>)
    ensures
        text_of(r) == word_field(text@, first@, second@),
{
    let a = to_chars(first);
    let b = to_chars(second);
    if includes(text, a.as_slice()) {
        Some(String::from_str(first))
    } else if includes(text, b.as_slice()) {
        Some(String::from_str(second))
    } else {
        None
    }
}

impl GpioJson {
    /// Builds the record from the reply and the text captured for the value.
    pub fn from_captures(response: &str, value: &Option<String>, port: &str, pin: u8) -> (r:
        GpioJson)
        ensures
            r@ == gpio_record(response@, text_of(*value), port@, pin),
    {
        let text = to_chars(response);
        GpioJson {
            port: String::from_str(port),
            pin,
            value: field_u8(value),
            direction: field_word(text.as_slice(), "INPUT", "OUTPUT"),
            state: field_word(text.as_slice(), "HIGH", "LOW"),
        }
    }
}

/// A text field is empty or holds a text that occurs in the reply.
pub open spec fn is_quoted(response: Seq<char>, field: Option<Seq<char>>) -> bool {
    match field {
        Some(s) => contains(response, s),
        None => true,
    }
}

/// An unsigned field is empty or holds a number that the reply writes out.
pub open spec fn is_written(response: Seq<char>, field: Option<nat>, limit: nat) -> bool {
    match field {
        Some(n) => exists|s: Seq<char>| #[trigger]
            contains(response, s) && unsigned_reading(s, limit) == Some(n),
        None => true,
    }
}

/// A signed field is empty or holds a number that the reply writes out.
pub open spec fn is_written_signed(
    response: Seq<char>,
    field: Option<int>,
    below: nat,
    above: nat,
) -> bool {
    match field {
        Some(n) => exists|s: Seq<char>| #[trigger]
            contains(response, s) && signed_reading(s, below, above) == Some(n),
        None => true,
    }
}

/// A yes/no field is empty or stands for a literal text of the reply.
pub open spec fn is_flagged(
    response: Seq<char>,
    field: Option<bool>,
    yes: Seq<char>,
    no: Seq<char>,
) -> bool {
    match field {
        Some(true) => contains(response, yes),
        Some(false) => contains(response, no),
        None => true,
    }
}

/// Every field of a battery record is empty or written out in the reply.
pub open spec fn battery_is_literal(response: Seq<char>, r: BatteryJson) -> bool {
    &&& is_written(
        response,
        match r.voltage_mv {
            Some(v) => Some(v as nat),
            None => None,
        },
        0xffff,
    )
    &&& is_written_signed(
        response,
        match r.current_ma {
            Some(v) => Some(v as int),
            None => None,
        },
        0x8000,
        0x7fff,
    )
    &&& is_written(
        response,
        match r.charge_mah {
            Some(v) => Some(v as nat),
            None => None,
        },
        0xffff,
    )
    &&& is_written_signed(
        response,
        match r.power_mw {
            Some(v) => Some(v as int),
            None => None,
        },
        0x8000_0000,
        0x7fff_ffff,
    )
}

/// Every field of a system record is empty or occurs in the reply.
pub open spec fn system_is_literal(response: Seq<char>, r: SystemInfoView) -> bool {
    &&& is_quoted(response, r.board)
    &&& is_quoted(response, r.soc)
    &&& is_quoted(response, r.version)
    &&& is_quoted(response, r.build_date)
    &&& is_quoted(response, r.build_type)
    &&& is_quoted(response, r.uptime)
}

/// Every field of an NFC record is empty or occurs in the reply.
pub open spec fn nfc_is_literal(response: Seq<char>, r: NfcView) -> bool {
    &&& is_quoted(response, r.status_register)
    &&& is_quoted(response, r.rf_field)
    &&& is_flagged(response, r.nfc_active, "NFC Active: YES"@, "NFC Active: NO"@)
    &&& is_flagged(response, r.i2c_ready, "I2C Ready: YES"@, "I2C Ready: NO"@)
    &&& is_quoted(response, r.eeprom_status)
    &&& r.sram_status is None
}

/// Every field of a coulomb-counter record is empty or occurs in the reply.
pub open spec fn ltc2959_is_literal(response: Seq<char>, r: Ltc2959View) -> bool {
    &&& battery_is_literal(response, r.measured)
    &&& is_quoted(response, r.status_register)
    &&& is_quoted(response, r.adc_mode)
    &&& is_quoted(response, r.coulomb_counter)
    &&& r.charge_complete is None
}

/// Every field of a GPIO record that is read from the reply is empty or
/// occurs in the reply.
pub open spec fn gpio_is_literal(response: Seq<char>, r: GpioView) -> bool {
    &&& is_written(
        response,
        match r.value {
            Some(v) => Some(v as nat),
            None => None,
        },
        0xff,
    )
    &&& is_quoted(response, r.direction)
    &&& is_quoted(response, r.state)
}

/// A record asserts nothing that the reply does not hold.
pub open spec fn is_literal(response: Seq<char>, r: RecordView) -> bool {
    match r {
        RecordView::Battery(b) => battery_is_literal(response, b),
        RecordView::System(v) => system_is_literal(response, v),
        RecordView::Nfc(v) => nfc_is_literal(response, v),
        RecordView::Ltc2959(v) => ltc2959_is_literal(response, v),
        RecordView::Gpio(v) => gpio_is_literal(response, v),
        RecordView::Raw(t) => t == response,
    }
}

proof fn lemma_quoted(response: Seq<char>, found: Option<Seq<char>>)
    requires
        is_quoted(response, found),
    ensures
        is_quoted(response, trimmed_field(found)),
{
    if let Some(s) = found {
        lemma_trimmed_occurs(response, s);
    }
}

proof fn lemma_battery_literal(
    response: Seq<char>,
    voltage: Option<Seq<char>>,
    current: Option<Seq<char>>,
    charge: Option<Seq<char>>,
    power: Option<Seq<char>>,
)
    requires
        is_quoted(response, voltage),
        is_quoted(response, current),
        is_quoted(response, charge),
        is_quoted(response, power),
    ensures
        battery_is_literal(response, battery_record(voltage, current, charge, power)),
{
    let r = battery_record(voltage, current, charge, power);
    if let Some(v) = r.voltage_mv {
        assert(contains(response, voltage->0) && unsigned_reading(voltage->0, 0xffff) == Some(
            v as nat,
        ));
    }
    if let Some(v) = r.current_ma {
        assert(contains(response, current->0) && signed_reading(current->0, 0x8000, 0x7fff)
            == Some(v as int));
    }
    if let Some(v) = r.charge_mah {
        assert(contains(response, charge->0) && unsigned_reading(charge->0, 0xffff) == Some(
            v as nat,
        ));
    }
    if let Some(v) = r.power_mw {
        assert(contains(response, power->0) && signed_reading(
            power->0,
            0x8000_0000,
            0x7fff_ffff,
        ) == Some(v as int));
    }
}

/// Extracts typed records from the text of controller replies.
pub struct ResponseParser;

impl ResponseParser {
    /// Reads voltage, current, charge and power from a reply.
    pub fn parse_battery_response(response: &str) -> (r: BatteryJson)
        ensures
            r == battery_reading(response@),
            battery_is_literal(response@, r),
    {
        let voltage = capture(VOLTAGE_PATTERN, response);
        let current = capture(CURRENT_PATTERN, response);
        let charge = capture(CHARGE_PATTERN, response);
        let power = capture(POWER_PATTERN, response);
        proof {
            lemma_battery_literal(
                response@,
                text_of(voltage),
                text_of(current),
                text_of(charge),
                text_of(power),
            );
        }
        BatteryJson::from_captures(&voltage, &current, &charge, &power)
    }

    /// Reads board, SoC, version, build and uptime from a reply.
    pub fn parse_system_info(response: &str) -> (r: SystemInfoJson)
        ensures
            r@ == system_reading(response@),
            system_is_literal(response@, r@),
    {
        let board = capture(BOARD_PATTERN, response);
        let soc = capture(SOC_PATTERN, response);
        let version = capture(VERSION_PATTERN, response);
        let build_date = capture(BUILD_PATTERN, response);
        let build_type = capture(BUILD_TYPE_PATTERN, response);
        let uptime = capture(UPTIME_PATTERN, response);
        proof {
            lemma_quoted(response@, text_of(board));
            lemma_quoted(response@, text_of(soc));
            lemma_quoted(response@, text_of(version));
            lemma_quoted(response@, text_of(build_date));
            lemma_quoted(response@, text_of(build_type));
            lemma_quoted(response@, text_of(uptime));
        }
        SystemInfoJson::from_captures(&board, &soc, &version, &build_date, &build_type, &uptime)
    }

    /// Reads the NFC front end's status from a reply.
    pub fn parse_nfc_status(response: &str) -> (r: NfcJson)
        ensures
            r@ == nfc_reading(response@),
            nfc_is_literal(response@, r@),
    {
        let status = capture(NFC_STATUS_PATTERN, response);
        let rf_field = capture(RF_FIELD_PATTERN, response);
        let eeprom = capture(EEPROM_PATTERN, response);
        proof {
            lemma_quoted(response@, text_of(rf_field));
            lemma_quoted(response@, text_of(eeprom));
        }
        NfcJson::from_captures(response, status, &rf_field, &eeprom)
    }

    /// Reads the coulomb counter's status, and any measurements, from a reply.
    pub fn parse_ltc2959_status(response: &str) -> (r: Ltc2959Json)
        ensures
            r@ == ltc2959_reading(response@),
            ltc2959_is_literal(response@, r@),
    {
        let status = capture(LTC_STATUS_PATTERN, response);
        let adc_mode = capture(ADC_MODE_PATTERN, response);
        let counter = capture(COULOMB_PATTERN, response);
        proof {
            lemma_quoted(response@, text_of(adc_mode));
            lemma_quoted(response@, text_of(counter));
        }
        let measured = Self::parse_battery_response(response);
        Ltc2959Json::from_captures(measured, status, &adc_mode, &counter)
    }

    /// Reads the state of one GPIO pin from a reply.
    pub fn parse_gpio_response(response: &str, port: &str, pin: u8) -> (r: GpioJson)
        ensures
            r@ == gpio_reading(response@, port@, pin),
            gpio_is_literal(response@, r@),
    {
        let value = capture(GPIO_VALUE_PATTERN, response);
        proof {
            let found = text_of(value);
            if let Some(v) = as_u8(unsigned_field(found, 0xff)) {
                assert(contains(response@, found->0) && unsigned_reading(found->0, 0xff) == Some(
                    v as nat,
                ));
            }
        }
        GpioJson::from_captures(response, &value, port, pin)
    }
}

/// The kinds of reply that the classifier tells apart.
#[derive(Debug, Clone, Copy, PartialEq, Eq, Structural)]
pub enum Category {
    Battery,
    System,
    Nfc,
    Ltc2959,
    Gpio,
    Rtc,
    Generic,
}

/// The kind of reply that a command is answered with, by the words that its
/// name holds; the first that applies, in this order.
pub open spec fn category_of(command: Seq<char>) -> Category {
    if contains(command, "battery"@) || contains(command, "coulomb"@) {
        Category::Battery
    } else if contains(command, "system"@) || contains(command, "version"@) {
        Category::System
    } else if contains(command, "nfc"@) {
        Category::Nfc
    } else if contains(command, "ltc2959"@) {
        Category::Ltc2959
    } else if contains(command, "gpio"@) {
        Category::Gpio
    } else if contains(command, "rtc"@) {
        Category::Rtc
    } else {
        Category::Generic
    }
}

/// A classified reply: a record of the kind's shape, or the text as it came
/// for the kinds that have no shape.
#[derive(Debug, Clone, PartialEq, Eq)]
pub enum ParsedRecord {
    Battery(BatteryJson),
    System(SystemInfoJson),
    Nfc(NfcJson),
    Ltc2959(Ltc2959Json),
    Gpio(GpioJson),
    Raw(String),
}

/// Mathematical content of a [`ParsedRecord`].
pub enum RecordView {
    Battery(BatteryJson),
    System(SystemInfoView),
    Nfc(NfcView),
    Ltc2959(Ltc2959View),
    Gpio(GpioView),
    Raw(Seq<char>),
}

impl View for ParsedRecord {
    type V = RecordView;

    open spec fn view(&self) -> RecordView {
        match self {
            ParsedRecord::Battery(r) => RecordView::Battery(*r),
            ParsedRecord::System(r) => RecordView::System(r@),
            ParsedRecord::Nfc(r) => RecordView::Nfc(r@),
            ParsedRecord::Ltc2959(r) => RecordView::Ltc2959(r@),
            ParsedRecord::Gpio(r) => RecordView::Gpio(r@),
            ParsedRecord::Raw(t) => RecordView::Raw(t@),
        }
    }
}

/// The record that the reply to a command gives. A GPIO record made this way
/// names no pin: its port is `unknown` and its pin 0.
pub open spec fn classified(command: Seq<char>, response: Seq<char>) -> RecordView {
    match category_of(command) {
        Category::Battery => RecordView::Battery(battery_reading(response)),
        Category::System => RecordView::System(system_reading(response)),
        Category::Nfc => RecordView::Nfc(nfc_reading(response)),
        Category::Ltc2959 => RecordView::Ltc2959(ltc2959_reading(response)),
        Category::Gpio => RecordView::Gpio(gpio_reading(response, "unknown"@, 0)),
        Category::Rtc => RecordView::Raw(response),
        Category::Generic => RecordView::Raw(response),
    }
}

fn names(command: &[char], word: &str) -> (b: bool)
    ensures
        b == contains(command@, word@),
{
    let w = to_chars(word);
    includes(command, w.as_slice())
}

impl ResponseParser {
    /// The kind of reply that a command is answered with.
    pub fn category(command: &str) -> (r: Category)
        ensures
            r == category_of(command@),
    {
        let c = to_chars(command);
        if names(c.as_slice(), "battery") || names(c.as_slice(), "coulomb") {
            Category::Battery
        } else if names(c.as_slice(), "system") || names(c.as_slice(), "version") {
            Category::System
        } else if names(c.as_slice(), "nfc") {
            Category::Nfc
        } else if names(c.as_slice(), "ltc2959") {
            Category::Ltc2959
        } else if names(c.as_slice(), "gpio") {
            Category::Gpio
        } else if names(c.as_slice(), "rtc") {
            Category::Rtc
        } else {
            Category::Generic
        }
    }

    /// Classifies the reply to a command: a record for the kinds that have a
    /// shape, the text unchanged for the others.
    pub fn classify(command: &str, response: &str) -> (r: ParsedRecord)
        ensures
            r@ == classified(command@, response@),
            is_literal(response@, r@),
    {
        match Self::category(command) {
            Category::Battery => ParsedRecord::Battery(Self::parse_battery_response(response)),
            Category::System => ParsedRecord::System(Self::parse_system_info(response)),
            Category::Nfc => ParsedRecord::Nfc(Self::parse_nfc_status(response)),
            Category::Ltc2959 => ParsedRecord::Ltc2959(Self::parse_ltc2959_status(response)),
            Category::Gpio => ParsedRecord::Gpio(Self::parse_gpio_response(response, "unknown", 0)),
            Category::Rtc => ParsedRecord::Raw(String::from_str(response)),
            Category::Generic => ParsedRecord::Raw(String::from_str(response)),
        }
    }
}

/// A battery field for which nothing was captured is empty, whatever was
/// captured for the others, and what a field holds depends on what was
/// captured for it alone.
pub proof fn lemma_battery_fields_are_independent(
    voltage: Option<Seq<char>>,
    current: Option<Seq<char>>,
    charge: Option<Seq<char>>,
    power: Option<Seq<char>>,
    other_voltage: Option<Seq<char>>,
    other_current: Option<Seq<char>>,
    other_charge: Option<Seq<char>>,
    other_power: Option<Seq<char>>,
)
    ensures
        battery_record(None, current, charge, power).voltage_mv is None,
        battery_record(voltage, None, charge, power).current_ma is None,
        battery_record(voltage, current, None, power).charge_mah is None,
        battery_record(voltage, current, charge, None).power_mw is None,
        battery_record(voltage, current, charge, power).voltage_mv == battery_record(
            voltage,
            other_current,
            other_charge,
            other_power,
        ).voltage_mv,
        battery_record(voltage, current, charge, power).current_ma == battery_record(
            other_voltage,
            current,
            other_charge,
            other_power,
        ).current_ma,
        battery_record(voltage, current, charge, power).charge_mah == battery_record(
            other_voltage,
            other_current,
            charge,
            other_power,
        ).charge_mah,
        battery_record(voltage, current, charge, power).power_mw == battery_record(
            other_voltage,
            other_current,
            other_charge,
            power,
        ).power_mw,
{
}

/// The record depends on the command's name and the reply's text alone: the
/// same command, answered twice with the same text, is classified twice to
/// the same record.
pub proof fn lemma_same_reply_same_record(
    command: Seq<char>,
    first: Seq<char>,
    second: Seq<char>,
)
    requires
        first == second,
    ensures
        classified(command, first) == classified(command, second),
{
}

} // verus!
