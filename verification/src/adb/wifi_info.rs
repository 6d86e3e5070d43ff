//! The headset's wireless link, read from the `mWifiInfo` line of
//! `dumpsys wifi`.

use crate::number::{between, parse_signed, parse_unsigned, signed_value, unsigned_value, within};
use crate::text::{
    char_is_alphabetic, char_is_numeric, chars_of, is_text, lowercase, replace, replace_exec, rows,
    split, split_exec, string_of, trim_matches, trim_matches_exec,
};
use vstd::prelude::*;
use vstd::utf8::is_ascii_chars;

verus! {

/// The state of the wireless link.
#[derive(Debug, PartialEq, Eq)]
pub struct WifiInfo {
    pub ssid: String,
    pub bssid: String,
    pub mac: String,
    pub ip: String,
    pub standard: String,
    pub rssi: i16,
    pub link_speed: u64,
    pub rx_link_speed: u64,
    pub max_rx_link_speed: u64,
    pub tx_link_speed: u64,
    pub max_tx_link_speed: u64,
    pub frequency_mhz: u64,
}

/// What a `WifiInfo` holds.
pub struct WifiInfoView {
    pub ssid: Seq<char>,
    pub bssid: Seq<char>,
    pub mac: Seq<char>,
    pub ip: Seq<char>,
    pub standard: Seq<char>,
    pub rssi: i16,
    pub link_speed: u64,
    pub rx_link_speed: u64,
    pub max_rx_link_speed: u64,
    pub tx_link_speed: u64,
    pub max_tx_link_speed: u64,
    pub frequency_mhz: u64,
}

impl View for WifiInfo {
    type V = WifiInfoView;

    open spec fn view(&self) -> WifiInfoView {
        WifiInfoView {
            ssid: self.ssid@,
            bssid: self.bssid@,
            mac: self.mac@,
            ip: self.ip@,
            standard: self.standard@,
            rssi: self.rssi,
            link_speed: self.link_speed,
            rx_link_speed: self.rx_link_speed,
            max_rx_link_speed: self.max_rx_link_speed,
            tx_link_speed: self.tx_link_speed,
            max_tx_link_speed: self.max_tx_link_speed,
            frequency_mhz: self.frequency_mhz,
        }
    }
}

/// Why the line cannot be read at all.
#[derive(Debug, Clone, Copy, PartialEq, Eq, Structural)]
pub enum WifiParseError {
    /// A property has no `: ` between its key and its value.
    MissingValue,
    /// A value that has to be a number is none, or one out of range.
    InvalidNumber,
    /// A speed has a character outside ASCII in it.
    NotAscii,
    /// A speed is too large once its unit is applied.
    Overflow,
}

/// No property read yet.
pub open spec fn info_start() -> WifiInfoView {
    WifiInfoView {
        ssid: Seq::empty(),
        bssid: Seq::empty(),
        mac: Seq::empty(),
        ip: Seq::empty(),
        standard: Seq::empty(),
        rssi: 0,
        link_speed: 0,
        rx_link_speed: 0,
        max_rx_link_speed: 0,
        tx_link_speed: 0,
        max_tx_link_speed: 0,
        frequency_mhz: 0,
    }
}

/// The number and the unit of a speed, read from position `i` on: digits
/// and `-` belong to the number until the first letter, letters to the
/// unit; `None` where another character stands, or a digit after a letter.
pub open spec fn speed_parts(
    s: Seq<char>,
    i: int,
    number: Seq<char>,
    unit: Seq<char>,
    unit_begun: bool,
) -> Option<(Seq<char>, Seq<char>)>
    decreases s.len() - i,
{
    if i < 0 || i >= s.len() {
        Some((number, unit))
    } else if (char_is_numeric(s[i]) || s[i] == '-') && !unit_begun {
        speed_parts(s, i + 1, number.push(s[i]), unit, unit_begun)
    } else if char_is_alphabetic(s[i]) {
        speed_parts(s, i + 1, number, unit.push(s[i]), true)
    } else {
        None
    }
}

/// How much a unit multiplies a speed.
pub open spec fn unit_factor(unit: Seq<char>) -> int {
    if unit == "Mbps"@ {
        1_000_000
    } else if unit == "Kbps"@ {
        1_000
    } else {
        1
    }
}

/// A speed in bits per second: `Ok(None)` where the text is no speed or a
/// negative one, an error where it cannot be read at all.
pub open spec fn speed_value(s: Seq<char>) -> Result<Option<u64>, WifiParseError> {
    match speed_parts(s, 0, Seq::empty(), Seq::empty(), false) {
        None => Ok(None),
        Some(parts) => if !is_ascii_chars(s) {
            Err(WifiParseError::NotAscii)
        } else {
            match between(signed_value(parts.0), i64::MIN as int, i64::MAX as int) {
                None => Err(WifiParseError::InvalidNumber),
                Some(n) => if n < 0 {
                    Ok(None)
                } else if n * unit_factor(parts.1) > u64::MAX {
                    Err(WifiParseError::Overflow)
                } else {
                    Ok(Some((n * unit_factor(parts.1)) as u64))
                },
            }
        },
    }
}

/// The properties that a key can name.
#[derive(Debug, Clone, Copy, PartialEq, Eq, Structural)]
pub enum WifiField {
    Ssid,
    Bssid,
    Mac,
    Ip,
    Standard,
    Rssi,
    LinkSpeed,
    TxLinkSpeed,
    MaxTxLinkSpeed,
    RxLinkSpeed,
    MaxRxLinkSpeed,
    Frequency,
    IsPrimary,
}

/// The property that a key names, once the key is in lower case. Two of
/// the names are written with a capital letter.
pub open spec fn wifi_field(key: Seq<char>) -> Option<WifiField> {
    if key == "ssid"@ {
        Some(WifiField::Ssid)
    } else if key == "bssid"@ {
        Some(WifiField::Bssid)
    } else if key == "mac"@ {
        Some(WifiField::Mac)
    } else if key == "ip"@ {
        Some(WifiField::Ip)
    } else if key == "wi-fi standard"@ {
        Some(WifiField::Standard)
    } else if key == "rssi"@ {
        Some(WifiField::Rssi)
    } else if key == "link speed"@ {
        Some(WifiField::LinkSpeed)
    } else if key == "tx Link speed"@ {
        Some(WifiField::TxLinkSpeed)
    } else if key == "max supported tx link speed"@ {
        Some(WifiField::MaxTxLinkSpeed)
    } else if key == "rx Link speed"@ {
        Some(WifiField::RxLinkSpeed)
    } else if key == "max supported rx link speed"@ {
        Some(WifiField::MaxRxLinkSpeed)
    } else if key == "frequency"@ {
        Some(WifiField::Frequency)
    } else if key == "isprimary"@ {
        Some(WifiField::IsPrimary)
    } else {
        None
    }
}

/// A speed set: giving up where the text is no speed.
pub open spec fn with_speed(info: WifiInfoView, field: WifiField, value: Seq<char>) -> Result<
    Option<WifiInfoView>,
    WifiParseError,
> {
    match speed_value(value) {
        Err(e) => Err(e),
        Ok(None) => Ok(None),
        Ok(Some(n)) => Ok(
            Some(
                match field {
                    WifiField::LinkSpeed => WifiInfoView { link_speed: n, ..info },
                    WifiField::TxLinkSpeed => WifiInfoView { tx_link_speed: n, ..info },
                    WifiField::MaxTxLinkSpeed => WifiInfoView { max_tx_link_speed: n, ..info },
                    WifiField::RxLinkSpeed => WifiInfoView { rx_link_speed: n, ..info },
                    _ => WifiInfoView { max_rx_link_speed: n, ..info },
                },
            ),
        ),
    }
}

/// One property read: `Ok(None)` where the reading gives up, which it does
/// at a speed that is none and at a link that is not the primary one.
pub open spec fn with_property(info: WifiInfoView, prop: Seq<char>) -> Result<
    Option<WifiInfoView>,
    WifiParseError,
> {
    let parts = split(prop, ": "@);
    if parts.len() < 2 {
        Err(WifiParseError::MissingValue)
    } else {
        let value = parts[1];
        match wifi_field(lowercase(parts[0])) {
            None => Ok(Some(info)),
            Some(field) => match field {
                WifiField::Ssid => Ok(Some(WifiInfoView { ssid: trim_matches(value, '"'), ..info })),
                WifiField::Bssid => Ok(Some(WifiInfoView { bssid: value, ..info })),
                WifiField::Mac => Ok(Some(WifiInfoView { mac: value, ..info })),
                WifiField::Ip => Ok(Some(WifiInfoView { ip: value, ..info })),
                WifiField::Standard => Ok(Some(WifiInfoView { standard: value, ..info })),
                WifiField::Rssi => match between(
                    signed_value(value),
                    i16::MIN as int,
                    i16::MAX as int,
                ) {
                    Some(n) => Ok(Some(WifiInfoView { rssi: n as i16, ..info })),
                    None => Err(WifiParseError::InvalidNumber),
                },
                WifiField::Frequency => match within(
                    unsigned_value(replace(value, "MHz"@, Seq::empty()), false),
                    u64::MAX as int,
                ) {
                    Some(n) => Ok(Some(WifiInfoView { frequency_mhz: n as u64, ..info })),
                    None => Err(WifiParseError::InvalidNumber),
                },
                WifiField::IsPrimary => if value == "0"@ {
                    Ok(None)
                } else {
                    Ok(Some(info))
                },
                _ => with_speed(info, field, value),
            },
        }
    }
}

/// The properties from `i` on read, one after the other.
pub open spec fn properties_from(info: WifiInfoView, props: Seq<Seq<char>>, i: int) -> Result<
    Option<WifiInfoView>,
    WifiParseError,
>
    decreases props.len() - i,
{
    if i < 0 || i >= props.len() {
        Ok(Some(info))
    } else {
        match with_property(info, props[i]) {
            Ok(Some(next)) => properties_from(next, props, i + 1),
            Ok(None) => Ok(None),
            Err(e) => Err(e),
        }
    }
}

/// The properties of the first line of a text: the line without its
/// `mWifiInfo ` marks, cut at each `, `.
pub open spec fn properties_of(s: Seq<char>) -> Seq<Seq<char>> {
    split(replace(split(s, seq!['\n'])[0], "mWifiInfo "@, Seq::empty()), ", "@)
}

/// What the text is read to. Only its first line is read.
pub open spec fn wifi_info(s: Seq<char>) -> Result<Option<WifiInfoView>, WifiParseError> {
    properties_from(info_start(), properties_of(s), 0)
}

/// The view of an optional `WifiInfo`.
pub open spec fn info_view(info: Option<WifiInfo>) -> Option<WifiInfoView> {
    match info {
        Some(i) => Some(i@),
        None => None,
    }
}

/// The property that a key names, once the key is in lower case.
pub fn field_for(key: &Vec<char>) -> (r: Option<WifiField>)
    ensures
        r == wifi_field(key@),
{
    if is_text(key, "ssid") {
        Some(WifiField::Ssid)
    } else if is_text(key, "bssid") {
        Some(WifiField::Bssid)
    } else if is_text(key, "mac") {
        Some(WifiField::Mac)
    } else if is_text(key, "ip") {
        Some(WifiField::Ip)
    } else if is_text(key, "wi-fi standard") {
        Some(WifiField::Standard)
    } else if is_text(key, "rssi") {
        Some(WifiField::Rssi)
    } else if is_text(key, "link speed") {
        Some(WifiField::LinkSpeed)
    } else if is_text(key, "tx Link speed") {
        Some(WifiField::TxLinkSpeed)
    } else if is_text(key, "max supported tx link speed") {
        Some(WifiField::MaxTxLinkSpeed)
    } else if is_text(key, "rx Link speed") {
        Some(WifiField::RxLinkSpeed)
    } else if is_text(key, "max supported rx link speed") {
        Some(WifiField::MaxRxLinkSpeed)
    } else if is_text(key, "frequency") {
        Some(WifiField::Frequency)
    } else if is_text(key, "isprimary") {
        Some(WifiField::IsPrimary)
    } else {
        None
    }
}

impl WifiInfo {
    /// Nothing known of the link.
    pub fn default() -> (info: WifiInfo)
        ensures
            info@ == info_start(),
    {
        WifiInfo {
            ssid: String::new(),
            bssid: String::new(),
            mac: String::new(),
            ip: String::new(),
            standard: String::new(),
            rssi: 0,
            link_speed: 0,
            rx_link_speed: 0,
            max_rx_link_speed: 0,
            tx_link_speed: 0,
            max_tx_link_speed: 0,
            frequency_mhz: 0,
        }
    }

    /// Reads a speed such as `866Mbps` to bits per second.
    pub fn parse_speed(speed: &str) -> (r: Result<Option<u64>, WifiParseError>)
        ensures
            r == speed_value(speed@),
    {
        let chars = chars_of(speed);
        let mut number: Vec<char> = Vec::new();
        let mut unit: Vec<char> = Vec::new();
        let mut unit_begun = false;
        let mut i: usize = 0;
        while i < chars.len()
            invariant
                i <= chars.len(),
                chars@ == speed@,
                speed_parts(speed@, i as int, number@, unit@, unit_begun) == speed_parts(
                    speed@,
                    0,
                    Seq::empty(),
                    Seq::empty(),
                    false,
                ),
            decreases chars.len() - i,
        {
            let c = chars[i];
            if (c.is_numeric() || c == '-') && !unit_begun {
                number.push(c);
            } else if c.is_alphabetic() {
                unit.push(c);
                unit_begun = true;
            } else {
                return Ok(None);
            }
            i = i + 1;
        }
        if !speed.is_ascii() {
            return Err(WifiParseError::NotAscii);
        }
        let n = match parse_signed(&number, i64::MIN, i64::MAX) {
            Some(n) => n,
            None => {
                return Err(WifiParseError::InvalidNumber);
            },
        };
        if n < 0 {
            return Ok(None);
        }
        let n = n as u64;
        let factor: u64 = if is_text(&unit, "Mbps") {
            1_000_000
        } else if is_text(&unit, "Kbps") {
            1_000
        } else {
            1
        };
        if n > u64::MAX / factor {
            assert(n * factor > u64::MAX) by (nonlinear_arith)
                requires
                    n > u64::MAX / factor,
                    factor == 1_000_000 || factor == 1_000 || factor == 1,
            ;
            return Err(WifiParseError::Overflow);
        }
        assert(n * factor <= u64::MAX) by (nonlinear_arith)
            requires
                n <= u64::MAX / factor,
                factor == 1_000_000 || factor == 1_000 || factor == 1,
        ;
        Ok(Some(n * factor))
    }

    /// Reads one property into `self`.
    fn read_property(self, prop: &Vec<char>) -> (r: Result<Option<WifiInfo>, WifiParseError>)
        ensures
            match r {
                Ok(next) => with_property(self@, prop@) == Ok::<
                    Option<WifiInfoView>,
                    WifiParseError,
                >(info_view(next)),
                Err(e) => with_property(self@, prop@) == Err::<
                    Option<WifiInfoView>,
                    WifiParseError,
                >(e),
            },
    {
        let separator = chars_of(": ");
        let parts = split_exec(prop, &separator);
        if parts.len() < 2 {
            return Err(WifiParseError::MissingValue);
        }
        assert(rows(parts@)[0] == parts@[0]@);
        assert(rows(parts@)[1] == parts@[1]@);
        let key_text = string_of(&parts[0]);
        let key = chars_of(key_text.as_str().to_lowercase().as_str());
        let value = &parts[1];
        let mut info = self;
        match field_for(&key) {
            None => Ok(Some(info)),
            Some(field) => match field {
                WifiField::Ssid => {
                    info.ssid = string_of(&trim_matches_exec(value, '"'));
                    Ok(Some(info))
                },
                WifiField::Bssid => {
                    info.bssid = string_of(value);
                    Ok(Some(info))
                },
                WifiField::Mac => {
                    info.mac = string_of(value);
                    Ok(Some(info))
                },
                WifiField::Ip => {
                    info.ip = string_of(value);
                    Ok(Some(info))
                },
                WifiField::Standard => {
                    info.standard = string_of(value);
                    Ok(Some(info))
                },
                WifiField::Rssi => match parse_signed(value, -32768, 32767) {
                    Some(n) => {
                        info.rssi = n as i16;
                        Ok(Some(info))
                    },
                    None => Err(WifiParseError::InvalidNumber),
                },
                WifiField::Frequency => {
                    let unit = chars_of("MHz");
                    let nothing: Vec<char> = Vec::new();
                    let digits = replace_exec(value, &unit, &nothing);
                    match parse_unsigned(&digits, false, u64::MAX) {
                        Some(n) => {
                            info.frequency_mhz = n;
                            Ok(Some(info))
                        },
                        None => Err(WifiParseError::InvalidNumber),
                    }
                },
                WifiField::IsPrimary => {
                    if is_text(value, "0") {
                        Ok(None)
                    } else {
                        Ok(Some(info))
                    }
                },
                _ => {
                    let text = string_of(value);
                    match Self::parse_speed(text.as_str()) {
                        Err(e) => Err(e),
                        Ok(None) => Ok(None),
                        Ok(Some(n)) => {
                            match field {
                                WifiField::LinkSpeed => {
                                    info.link_speed = n;
                                },
                                WifiField::TxLinkSpeed => {
                                    info.tx_link_speed = n;
                                },
                                WifiField::MaxTxLinkSpeed => {
                                    info.max_tx_link_speed = n;
                                },
                                WifiField::RxLinkSpeed => {
                                    info.rx_link_speed = n;
                                },
                                _ => {
                                    info.max_rx_link_speed = n;
                                },
                            }
                            Ok(Some(info))
                        },
                    }
                },
            },
        }
    }

    /// Reads the first line of `text`, property by property.
    fn scan(text: &str) -> (r: Result<Option<WifiInfo>, WifiParseError>)
        ensures
            match r {
                Ok(info) => wifi_info(text@) == Ok::<Option<WifiInfoView>, WifiParseError>(
                    info_view(info),
                ),
                Err(e) => wifi_info(text@) == Err::<Option<WifiInfoView>, WifiParseError>(e),
            },
    {
        let chars = chars_of(text);
        let mut feed: Vec<char> = Vec::new();
        feed.push('\n');
        assert(feed@ =~= seq!['\n']);
        let all = split_exec(&chars, &feed);
        assert(rows(all@)[0] == all@[0]@);
        let mark = chars_of("mWifiInfo ");
        let nothing: Vec<char> = Vec::new();
        let line = replace_exec(&all[0], &mark, &nothing);
        let comma = chars_of(", ");
        let props = split_exec(&line, &comma);
        let mut info = WifiInfo::default();
        let mut i: usize = 0;
        while i < props.len()
            invariant
                i <= props.len(),
                rows(props@) == properties_of(text@),
                properties_from(info@, properties_of(text@), i as int) == wifi_info(text@),
            decreases props.len() - i,
        {
            assert(rows(props@)[i as int] == props@[i as int]@);
            match info.read_property(&props[i]) {
                Ok(Some(next)) => {
                    info = next;
                },
                Ok(None) => {
                    return Ok(None);
                },
                Err(e) => {
                    return Err(e);
                },
            }
            i = i + 1;
        }
        Ok(Some(info))
    }

    /// Reads the state of the link from the first line of `text`, where
    /// the line can be read: each of its properties has a value, and its
    /// numbers are numbers. `None` where a speed is none, or the link is
    /// not the primary one.
    pub fn parse_from(text: &str) -> (r: Option<WifiInfo>)
        requires
            wifi_info(text@).is_ok(),
        ensures
            wifi_info(text@) == Ok::<Option<WifiInfoView>, WifiParseError>(info_view(r)),
    {
        match Self::scan(text) {
            Ok(info) => info,
            Err(_) => None,
        }
    }

    /// Whether the first line of `text` can be read.
    pub fn check(text: &str) -> (r: Result<(), WifiParseError>)
        ensures
            match r {
                Ok(_) => wifi_info(text@).is_ok(),
                Err(e) => wifi_info(text@) == Err::<Option<WifiInfoView>, WifiParseError>(e),
            },
    {
        match Self::scan(text) {
            Ok(_) => Ok(()),
            Err(e) => Err(e),
        }
    }

    /// Reads the state of the link from the first line of `text`, or says
    /// why the line cannot be read.
    pub fn try_parse_from(text: &str) -> (r: Result<Option<WifiInfo>, WifiParseError>)
        ensures
            match r {
                Ok(info) => wifi_info(text@) == Ok::<Option<WifiInfoView>, WifiParseError>(
                    info_view(info),
                ),
                Err(e) => wifi_info(text@) == Err::<Option<WifiInfoView>, WifiParseError>(e),
            },
    {
        match Self::check(text) {
            Ok(_) => Ok(Self::parse_from(text)),
            Err(e) => Err(e),
        }
    }
}

} // verus!
