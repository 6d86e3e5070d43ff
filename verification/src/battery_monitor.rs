//! The state of the headset's battery, read from the output of
//! `dumpsys battery`, and the history of its charge.

use crate::number::{parse_unsigned, unsigned_value, within};
use crate::text::{
    chars_of, is_text, lines, lines_exec, lowercase, rows, split_once, split_once_exec, string_of,
    trim, trim_exec,
};
use vstd::prelude::*;

verus! {

/// The number of samples of the charge that are kept.
pub const CHARGE_HISTORY_SAMPLES: usize = 128;

/// The seconds between two looks at the battery.
pub const BATTERY_SCAN_INTERVAL_SEC: u64 = 60;

#[derive(Debug, Clone, Copy, PartialEq, Eq, Structural)]
pub enum BatteryHealth {
    Unknown,
    Good,
    Overheat,
    Dead,
    OverVoltage,
    UnspecifiedFailure,
    Cold,
}

#[derive(Debug, Clone, Copy, PartialEq, Eq, Structural)]
pub enum BatteryStatus {
    Unknown,
    Charging,
    Discharging,
    NotCharging,
    Full,
}

#[derive(Debug, Clone, Copy, PartialEq, Eq, Structural)]
pub enum BatteryChargeSource {
    Battery,
    AC,
    USB,
    Dock,
    Wireless,
}

/// The health that the number `n` stands for; unknown for every number
/// that stands for none.
pub open spec fn health_of(n: int) -> BatteryHealth {
    if n == 2 {
        BatteryHealth::Good
    } else if n == 3 {
        BatteryHealth::Overheat
    } else if n == 4 {
        BatteryHealth::Dead
    } else if n == 5 {
        BatteryHealth::OverVoltage
    } else if n == 6 {
        BatteryHealth::UnspecifiedFailure
    } else if n == 7 {
        BatteryHealth::Cold
    } else {
        BatteryHealth::Unknown
    }
}

/// The status that the number `n` stands for; unknown for every number
/// that stands for none.
pub open spec fn status_of(n: int) -> BatteryStatus {
    if n == 2 {
        BatteryStatus::Charging
    } else if n == 3 {
        BatteryStatus::Discharging
    } else if n == 4 {
        BatteryStatus::NotCharging
    } else if n == 5 {
        BatteryStatus::Full
    } else {
        BatteryStatus::Unknown
    }
}

impl BatteryHealth {
    pub fn from(n: u16) -> (h: BatteryHealth)
        ensures
            h == health_of(n as int),
    {
        if n == 2 {
            BatteryHealth::Good
        } else if n == 3 {
            BatteryHealth::Overheat
        } else if n == 4 {
            BatteryHealth::Dead
        } else if n == 5 {
            BatteryHealth::OverVoltage
        } else if n == 6 {
            BatteryHealth::UnspecifiedFailure
        } else if n == 7 {
            BatteryHealth::Cold
        } else {
            BatteryHealth::Unknown
        }
    }
}

impl BatteryStatus {
    pub fn from(n: u16) -> (s: BatteryStatus)
        ensures
            s == status_of(n as int),
    {
        if n == 2 {
            BatteryStatus::Charging
        } else if n == 3 {
            BatteryStatus::Discharging
        } else if n == 4 {
            BatteryStatus::NotCharging
        } else if n == 5 {
            BatteryStatus::Full
        } else {
            BatteryStatus::Unknown
        }
    }
}

/// What `dumpsys battery` tells.
#[derive(Debug, PartialEq, Eq)]
pub struct AndroidBatteryStats {
    pub power_source: BatteryChargeSource,
    pub is_weak_charger: bool,
    pub max_charge_current_ma: u32,
    pub max_charge_voltage_mv: u32,
    pub charge_counter: u32,
    pub status: BatteryStatus,
    pub health: BatteryHealth,
    pub present: bool,
    pub level: u8,
    pub scale: u8,
    pub voltage: u32,
    pub temperature: u32,
    pub technology: String,
}

/// The state of the battery with the history of its charge.
#[derive(Debug)]
pub struct AndroidBatteryInfo {
    pub stats: AndroidBatteryStats,
    pub history: Vec<u8>,
}

/// The fields that a line of the output can set.
#[derive(Debug, Clone, Copy, PartialEq, Eq, Structural)]
pub enum BatteryField {
    AcPowered,
    UsbPowered,
    WirelessPowered,
    DockPowered,
    WeakCharger,
    MaxChargingCurrent,
    MaxChargingVoltage,
    ChargeCounter,
    Status,
    Health,
    Present,
    Level,
    Scale,
    Voltage,
    Temperature,
    Technology,
}

/// Why the output could not be read.
#[derive(Debug, Clone, Copy, PartialEq, Eq, Structural)]
pub enum BatteryParseError {
    /// A value that has to be `true` or `false` is neither.
    InvalidBool(BatteryField),
    /// A value that has to be a number is none, or too large a one.
    InvalidNumber(BatteryField),
}

/// The field that a key names, in lower case.
pub open spec fn field_named(key: Seq<char>) -> Option<BatteryField> {
    if key == "ac powered"@ {
        Some(BatteryField::AcPowered)
    } else if key == "usb powered"@ {
        Some(BatteryField::UsbPowered)
    } else if key == "wireless powered"@ {
        Some(BatteryField::WirelessPowered)
    } else if key == "dock powered"@ {
        Some(BatteryField::DockPowered)
    } else if key == "weak charger"@ {
        Some(BatteryField::WeakCharger)
    } else if key == "max charging current"@ {
        Some(BatteryField::MaxChargingCurrent)
    } else if key == "max charging voltage"@ {
        Some(BatteryField::MaxChargingVoltage)
    } else if key == "charge counter"@ {
        Some(BatteryField::ChargeCounter)
    } else if key == "status"@ {
        Some(BatteryField::Status)
    } else if key == "health"@ {
        Some(BatteryField::Health)
    } else if key == "present"@ {
        Some(BatteryField::Present)
    } else if key == "level"@ {
        Some(BatteryField::Level)
    } else if key == "scale"@ {
        Some(BatteryField::Scale)
    } else if key == "voltage"@ {
        Some(BatteryField::Voltage)
    } else if key == "temperature"@ {
        Some(BatteryField::Temperature)
    } else if key == "technology"@ {
        Some(BatteryField::Technology)
    } else {
        None
    }
}

/// The truth value that a text writes: `true` or `false`, in any case of
/// the letters.
pub open spec fn bool_text(value: Seq<char>) -> Option<bool> {
    if lowercase(value) == "true"@ {
        Some(true)
    } else if lowercase(value) == "false"@ {
        Some(false)
    } else {
        None
    }
}

/// What has been read of the output so far.
pub struct BatteryScan {
    pub source_ac: bool,
    pub source_usb: bool,
    pub source_wireless: bool,
    pub source_dock: bool,
    pub is_weak_charger: bool,
    pub max_charge_current_ma: u32,
    pub max_charge_voltage_mv: u32,
    pub charge_counter: u32,
    pub status: BatteryStatus,
    pub health: BatteryHealth,
    pub present: bool,
    pub level: u8,
    pub scale: u8,
    pub voltage: u32,
    pub temperature: u32,
    pub technology: Seq<char>,
}

/// Nothing read yet.
pub open spec fn scan_start() -> BatteryScan {
    BatteryScan {
        source_ac: false,
        source_usb: false,
        source_wireless: false,
        source_dock: false,
        is_weak_charger: false,
        max_charge_current_ma: 0,
        max_charge_voltage_mv: 0,
        charge_counter: 0,
        status: BatteryStatus::Unknown,
        health: BatteryHealth::Unknown,
        present: false,
        level: 0,
        scale: 0,
        voltage: 0,
        temperature: 0,
        technology: Seq::empty(),
    }
}

/// A truth value read for `field`.
pub open spec fn read_bool(field: BatteryField, value: Seq<char>) -> Result<bool, BatteryParseError> {
    match bool_text(value) {
        Some(b) => Ok(b),
        None => Err(BatteryParseError::InvalidBool(field)),
    }
}

/// A number of at most `max` read for `field`.
pub open spec fn read_number(field: BatteryField, value: Seq<char>, max: int) -> Result<
    int,
    BatteryParseError,
> {
    match within(unsigned_value(value, false), max) {
        Some(n) => Ok(n),
        None => Err(BatteryParseError::InvalidNumber(field)),
    }
}

/// One field set to the value that a line gives it. Currents and voltages
/// come in millionths and are kept in thousandths.
pub open spec fn with_field(st: BatteryScan, field: BatteryField, value: Seq<char>) -> Result<
    BatteryScan,
    BatteryParseError,
> {
    match field {
        BatteryField::AcPowered => match read_bool(field, value) {
            Ok(b) => Ok(BatteryScan { source_ac: b, ..st }),
            Err(e) => Err(e),
        },
        BatteryField::UsbPowered => match read_bool(field, value) {
            Ok(b) => Ok(BatteryScan { source_usb: b, ..st }),
            Err(e) => Err(e),
        },
        BatteryField::WirelessPowered => match read_bool(field, value) {
            Ok(b) => Ok(BatteryScan { source_wireless: b, ..st }),
            Err(e) => Err(e),
        },
        BatteryField::DockPowered => match read_bool(field, value) {
            Ok(b) => Ok(BatteryScan { source_dock: b, ..st }),
            Err(e) => Err(e),
        },
        BatteryField::WeakCharger => match read_bool(field, value) {
            Ok(b) => Ok(BatteryScan { is_weak_charger: b, ..st }),
            Err(e) => Err(e),
        },
        BatteryField::Present => match read_bool(field, value) {
            Ok(b) => Ok(BatteryScan { present: b, ..st }),
            Err(e) => Err(e),
        },
        BatteryField::MaxChargingCurrent => match read_number(field, value, u32::MAX as int) {
            Ok(n) => Ok(BatteryScan { max_charge_current_ma: (n / 1000) as u32, ..st }),
            Err(e) => Err(e),
        },
        BatteryField::MaxChargingVoltage => match read_number(field, value, u32::MAX as int) {
            Ok(n) => Ok(BatteryScan { max_charge_voltage_mv: (n / 1000) as u32, ..st }),
            Err(e) => Err(e),
        },
        BatteryField::ChargeCounter => match read_number(field, value, u32::MAX as int) {
            Ok(n) => Ok(BatteryScan { charge_counter: n as u32, ..st }),
            Err(e) => Err(e),
        },
        BatteryField::Voltage => match read_number(field, value, u32::MAX as int) {
            Ok(n) => Ok(BatteryScan { voltage: n as u32, ..st }),
            Err(e) => Err(e),
        },
        BatteryField::Temperature => match read_number(field, value, u32::MAX as int) {
            Ok(n) => Ok(BatteryScan { temperature: n as u32, ..st }),
            Err(e) => Err(e),
        },
        BatteryField::Status => match read_number(field, value, u16::MAX as int) {
            Ok(n) => Ok(BatteryScan { status: status_of(n), ..st }),
            Err(e) => Err(e),
        },
        BatteryField::Health => match read_number(field, value, u16::MAX as int) {
            Ok(n) => Ok(BatteryScan { health: health_of(n), ..st }),
            Err(e) => Err(e),
        },
        BatteryField::Level => match read_number(field, value, u8::MAX as int) {
            Ok(n) => Ok(BatteryScan { level: n as u8, ..st }),
            Err(e) => Err(e),
        },
        BatteryField::Scale => match read_number(field, value, u8::MAX as int) {
            Ok(n) => Ok(BatteryScan { scale: n as u8, ..st }),
            Err(e) => Err(e),
        },
        BatteryField::Technology => Ok(BatteryScan { technology: value, ..st }),
    }
}

/// One line read: a line of the form `key: value` whose key names a field
/// sets that field; every other line is passed over.
pub open spec fn with_line(st: BatteryScan, line: Seq<char>) -> Result<BatteryScan, BatteryParseError> {
    match split_once(trim(line), ':') {
        Some(pair) => match field_named(lowercase(trim(pair.0))) {
            Some(field) => with_field(st, field, trim(pair.1)),
            None => Ok(st),
        },
        None => Ok(st),
    }
}

/// The lines from `i` on read, one after the other; the first line that
/// cannot be read ends the reading.
pub open spec fn scan_from(st: BatteryScan, all: Seq<Seq<char>>, i: int) -> Result<
    BatteryScan,
    BatteryParseError,
>
    decreases all.len() - i,
{
    if i < 0 || i >= all.len() {
        Ok(st)
    } else {
        match with_line(st, all[i]) {
            Ok(next) => scan_from(next, all, i + 1),
            Err(e) => Err(e),
        }
    }
}

/// Where the power comes from: the first of mains, USB, wireless and dock
/// that supplies it, or the battery.
pub open spec fn source_of(st: BatteryScan) -> BatteryChargeSource {
    if st.source_ac {
        BatteryChargeSource::AC
    } else if st.source_usb {
        BatteryChargeSource::USB
    } else if st.source_wireless {
        BatteryChargeSource::Wireless
    } else if st.source_dock {
        BatteryChargeSource::Dock
    } else {
        BatteryChargeSource::Battery
    }
}

impl AndroidBatteryStats {
    /// Whether the statistics are what a scan has read.
    pub open spec fn holds(&self, st: BatteryScan) -> bool {
        &&& self.power_source == source_of(st)
        &&& self.is_weak_charger == st.is_weak_charger
        &&& self.max_charge_current_ma == st.max_charge_current_ma
        &&& self.max_charge_voltage_mv == st.max_charge_voltage_mv
        &&& self.charge_counter == st.charge_counter
        &&& self.status == st.status
        &&& self.health == st.health
        &&& self.present == st.present
        &&& self.level == st.level
        &&& self.scale == st.scale
        &&& self.voltage == st.voltage
        &&& self.temperature == st.temperature
        &&& self.technology@ == st.technology
    }

    /// Reads `true` or `false`, in any case of the letters.
    pub fn parse_bool(s: &str) -> (r: Option<bool>)
        ensures
            r == bool_text(s@),
    {
        let lower = s.to_lowercase();
        let chars = chars_of(lower.as_str());
        if is_text(&chars, "true") {
            Some(true)
        } else if is_text(&chars, "false") {
            Some(false)
        } else {
            None
        }
    }

    /// Reads the output of `dumpsys battery`.
    ///
    /// Each line of the form `key: value` whose key names a field sets that
    /// field; the case of the key's letters does not matter, nor does
    /// whitespace around key and value. A field that is set twice keeps the
    /// later value. The first value that cannot be read ends the reading
    /// with an error.
    pub fn try_parse(dumpsys_output: &str) -> (r: Result<AndroidBatteryStats, BatteryParseError>)
        ensures
            match r {
                Ok(stats) => scan_from(scan_start(), lines(dumpsys_output@), 0).is_ok()
                    && stats.holds(scan_from(scan_start(), lines(dumpsys_output@), 0)->Ok_0),
                Err(e) => scan_from(scan_start(), lines(dumpsys_output@), 0) == Err::<
                    BatteryScan,
                    BatteryParseError,
                >(e),
            },
    {
        let chars = chars_of(dumpsys_output);
        let all = lines_exec(&chars);
        let mut st = ScanState::start();
        let mut i: usize = 0;
        while i < all.len()
            invariant
                i <= all.len(),
                rows(all@) == lines(dumpsys_output@),
                scan_from(scan_start(), lines(dumpsys_output@), 0) == scan_from(
                    st@,
                    lines(dumpsys_output@),
                    i as int,
                ),
            decreases all.len() - i,
        {
            assert(rows(all@)[i as int] == all@[i as int]@);
            match st.read_line(&all[i]) {
                Ok(next) => {
                    st = next;
                },
                Err(e) => {
                    return Err(e);
                },
            }
            i = i + 1;
        }
        let power_source = if st.source_ac {
            BatteryChargeSource::AC
        } else if st.source_usb {
            BatteryChargeSource::USB
        } else if st.source_wireless {
            BatteryChargeSource::Wireless
        } else if st.source_dock {
            BatteryChargeSource::Dock
        } else {
            BatteryChargeSource::Battery
        };
        Ok(
            AndroidBatteryStats {
                power_source,
                is_weak_charger: st.is_weak_charger,
                max_charge_current_ma: st.max_charge_current_ma,
                max_charge_voltage_mv: st.max_charge_voltage_mv,
                charge_counter: st.charge_counter,
                status: st.status,
                health: st.health,
                present: st.present,
                level: st.level,
                scale: st.scale,
                voltage: st.voltage,
                temperature: st.temperature,
                technology: string_of(&st.technology),
            },
        )
    }
}

/// What has been read of the output so far, as the reader holds it.
struct ScanState {
    source_ac: bool,
    source_usb: bool,
    source_wireless: bool,
    source_dock: bool,
    is_weak_charger: bool,
    max_charge_current_ma: u32,
    max_charge_voltage_mv: u32,
    charge_counter: u32,
    status: BatteryStatus,
    health: BatteryHealth,
    present: bool,
    level: u8,
    scale: u8,
    voltage: u32,
    temperature: u32,
    technology: Vec<char>,
}

impl View for ScanState {
    type V = BatteryScan;

    closed spec fn view(&self) -> BatteryScan {
        BatteryScan {
            source_ac: self.source_ac,
            source_usb: self.source_usb,
            source_wireless: self.source_wireless,
            source_dock: self.source_dock,
            is_weak_charger: self.is_weak_charger,
            max_charge_current_ma: self.max_charge_current_ma,
            max_charge_voltage_mv: self.max_charge_voltage_mv,
            charge_counter: self.charge_counter,
            status: self.status,
            health: self.health,
            present: self.present,
            level: self.level,
            scale: self.scale,
            voltage: self.voltage,
            temperature: self.temperature,
            technology: self.technology@,
        }
    }
}

impl ScanState {
    fn start() -> (st: ScanState)
        ensures
            st@ == scan_start(),
    {
        ScanState {
            source_ac: false,
            source_usb: false,
            source_wireless: false,
            source_dock: false,
            is_weak_charger: false,
            max_charge_current_ma: 0,
            max_charge_voltage_mv: 0,
            charge_counter: 0,
            status: BatteryStatus::Unknown,
            health: BatteryHealth::Unknown,
            present: false,
            level: 0,
            scale: 0,
            voltage: 0,
            temperature: 0,
            technology: Vec::new(),
        }
    }

    /// Sets a field that holds a truth value.
    fn set_bool(self, field: BatteryField, value: &Vec<char>) -> (r: Result<
        ScanState,
        BatteryParseError,
    >)
        requires
            field == BatteryField::AcPowered || field == BatteryField::UsbPowered || field
                == BatteryField::WirelessPowered || field == BatteryField::DockPowered || field
                == BatteryField::WeakCharger || field == BatteryField::Present,
        ensures
            match r {
                Ok(st) => with_field(self@, field, value@) == Ok::<BatteryScan, BatteryParseError>(
                    st@,
                ),
                Err(e) => with_field(self@, field, value@) == Err::<BatteryScan, BatteryParseError>(
                    e,
                ),
            },
    {
        let text = string_of(value);
        let mut st = self;
        match AndroidBatteryStats::parse_bool(text.as_str()) {
            Some(b) => {
                match field {
                    BatteryField::AcPowered => {
                        st.source_ac = b;
                    },
                    BatteryField::UsbPowered => {
                        st.source_usb = b;
                    },
                    BatteryField::WirelessPowered => {
                        st.source_wireless = b;
                    },
                    BatteryField::DockPowered => {
                        st.source_dock = b;
                    },
                    BatteryField::WeakCharger => {
                        st.is_weak_charger = b;
                    },
                    _ => {
                        st.present = b;
                    },
                }
                Ok(st)
            },
            None => Err(BatteryParseError::InvalidBool(field)),
        }
    }

    /// Sets a field that holds a number.
    fn set_number(self, field: BatteryField, value: &Vec<char>) -> (r: Result<
        ScanState,
        BatteryParseError,
    >)
        requires
            field == BatteryField::MaxChargingCurrent || field == BatteryField::MaxChargingVoltage
                || field == BatteryField::ChargeCounter || field == BatteryField::Status || field
                == BatteryField::Health || field == BatteryField::Level || field
                == BatteryField::Scale || field == BatteryField::Voltage || field
                == BatteryField::Temperature,
        ensures
            match r {
                Ok(st) => with_field(self@, field, value@) == Ok::<BatteryScan, BatteryParseError>(
                    st@,
                ),
                Err(e) => with_field(self@, field, value@) == Err::<BatteryScan, BatteryParseError>(
                    e,
                ),
            },
    {
        let max: u64 = match field {
            BatteryField::Status | BatteryField::Health => 0xffff,
            BatteryField::Level | BatteryField::Scale => 0xff,
            _ => 0xffff_ffff,
        };
        let mut st = self;
        match parse_unsigned(value, false, max) {
            Some(n) => {
                match field {
                    BatteryField::MaxChargingCurrent => {
                        st.max_charge_current_ma = (n / 1000) as u32;
                    },
                    BatteryField::MaxChargingVoltage => {
                        st.max_charge_voltage_mv = (n / 1000) as u32;
                    },
                    BatteryField::ChargeCounter => {
                        st.charge_counter = n as u32;
                    },
                    BatteryField::Status => {
                        st.status = BatteryStatus::from(n as u16);
                    },
                    BatteryField::Health => {
                        st.health = BatteryHealth::from(n as u16);
                    },
                    BatteryField::Level => {
                        st.level = n as u8;
                    },
                    BatteryField::Scale => {
                        st.scale = n as u8;
                    },
                    BatteryField::Voltage => {
                        st.voltage = n as u32;
                    },
                    _ => {
                        st.temperature = n as u32;
                    },
                }
                Ok(st)
            },
            None => Err(BatteryParseError::InvalidNumber(field)),
        }
    }

    /// Reads one line.
    fn read_line(self, line: &Vec<char>) -> (r: Result<ScanState, BatteryParseError>)
        ensures
            match r {
                Ok(st) => with_line(self@, line@) == Ok::<BatteryScan, BatteryParseError>(st@),
                Err(e) => with_line(self@, line@) == Err::<BatteryScan, BatteryParseError>(e),
            },
    {
        let trimmed = trim_exec(line);
        match split_once_exec(&trimmed, ':') {
            Some(pair) => {
                let key_text = string_of(&trim_exec(&pair.0));
                let key = chars_of(key_text.as_str().to_lowercase().as_str());
                let value = trim_exec(&pair.1);
                match field_for(&key) {
                    Some(field) => match field {
                        BatteryField::Technology => {
                            let mut st = self;
                            st.technology = value;
                            Ok(st)
                        },
                        BatteryField::AcPowered | BatteryField::UsbPowered
                        | BatteryField::WirelessPowered | BatteryField::DockPowered
                        | BatteryField::WeakCharger | BatteryField::Present => self.set_bool(
                            field,
                            &value,
                        ),
                        _ => self.set_number(field, &value),
                    },
                    None => Ok(self),
                }
            },
            None => Ok(self),
        }
    }
}

/// The field that a key names, in lower case.
pub fn field_for(key: &Vec<char>) -> (r: Option<BatteryField>)
    ensures
        r == field_named(key@),
{
    if is_text(key, "ac powered") {
        Some(BatteryField::AcPowered)
    } else if is_text(key, "usb powered") {
        Some(BatteryField::UsbPowered)
    } else if is_text(key, "wireless powered") {
        Some(BatteryField::WirelessPowered)
    } else if is_text(key, "dock powered") {
        Some(BatteryField::DockPowered)
    } else if is_text(key, "weak charger") {
        Some(BatteryField::WeakCharger)
    } else if is_text(key, "max charging current") {
        Some(BatteryField::MaxChargingCurrent)
    } else if is_text(key, "max charging voltage") {
        Some(BatteryField::MaxChargingVoltage)
    } else if is_text(key, "charge counter") {
        Some(BatteryField::ChargeCounter)
    } else if is_text(key, "status") {
        Some(BatteryField::Status)
    } else if is_text(key, "health") {
        Some(BatteryField::Health)
    } else if is_text(key, "present") {
        Some(BatteryField::Present)
    } else if is_text(key, "level") {
        Some(BatteryField::Level)
    } else if is_text(key, "scale") {
        Some(BatteryField::Scale)
    } else if is_text(key, "voltage") {
        Some(BatteryField::Voltage)
    } else if is_text(key, "temperature") {
        Some(BatteryField::Temperature)
    } else if is_text(key, "technology") {
        Some(BatteryField::Technology)
    } else {
        None
    }
}

/// The history of the charge with one more sample: before the sample is
/// added, the oldest gives way where more samples than the limit are kept.
pub open spec fn history_with(history: Seq<u8>, level: u8) -> Seq<u8> {
    if history.len() > CHARGE_HISTORY_SAMPLES {
        history.skip(1).push(level)
    } else {
        history.push(level)
    }
}

/// Adds a sample of the charge to the history.
pub fn record_level(history: &mut Vec<u8>, level: u8)
    ensures
        final(history)@ == history_with(old(history)@, level),
{
    if history.len() > CHARGE_HISTORY_SAMPLES {
        history.remove(0);
        assert(history@ =~= old(history)@.skip(1));
    }
    history.push(level);
}

/// A history that began empty never holds more than one sample above the
/// limit.
pub proof fn law_history_bounded(history: Seq<u8>, level: u8)
    requires
        history.len() <= CHARGE_HISTORY_SAMPLES + 1,
    ensures
        history_with(history, level).len() <= CHARGE_HISTORY_SAMPLES + 1,
        history_with(history, level).last() == level,
{
}

} // verus!
