//! One headset: how it is recognised among USB devices, how it is reached,
//! and how its answers are read.

use crate::app_state::LaunchError;
use crate::number::{decimal, parse_unsigned, to_decimal, unsigned_value, within};
use crate::text::{
    chars_of, contains_exec, contains_text, is_text, lines, lines_exec, rows, split, split_exec,
    string_of, trim, trim_exec,
};
use vstd::prelude::*;

verus! {

/// The vendors whose headsets are supported.
#[derive(Debug, Clone, Copy, PartialEq, Eq, Structural)]
pub enum VrDeviceType {
    Sony,
    HTC,
    Lenovo,
    Microsoft,
    Oculus,
    Valve,
}

/// The vendor with the USB vendor id `id`, if it is a supported one.
pub open spec fn vendor_of(id: int) -> Option<VrDeviceType> {
    if id == 0x054c {
        Some(VrDeviceType::Sony)
    } else if id == 0x0bb4 {
        Some(VrDeviceType::HTC)
    } else if id == 0x17ef {
        Some(VrDeviceType::Lenovo)
    } else if id == 0x045e {
        Some(VrDeviceType::Microsoft)
    } else if id == 0x2833 {
        Some(VrDeviceType::Oculus)
    } else if id == 0x28de {
        Some(VrDeviceType::Valve)
    } else {
        None
    }
}

impl VrDeviceType {
    /// The USB vendor id of the vendor.
    pub open spec fn vendor_id_spec(self) -> u16 {
        match self {
            VrDeviceType::Sony => 0x054c,
            VrDeviceType::HTC => 0x0bb4,
            VrDeviceType::Lenovo => 0x17ef,
            VrDeviceType::Microsoft => 0x045e,
            VrDeviceType::Oculus => 0x2833,
            VrDeviceType::Valve => 0x28de,
        }
    }

    /// The USB vendor id of the vendor.
    pub fn vendor_id(self) -> (id: u16)
        ensures
            id == self.vendor_id_spec(),
            vendor_of(id as int) == Some(self),
    {
        match self {
            VrDeviceType::Sony => 0x054c,
            VrDeviceType::HTC => 0x0bb4,
            VrDeviceType::Lenovo => 0x17ef,
            VrDeviceType::Microsoft => 0x045e,
            VrDeviceType::Oculus => 0x2833,
            VrDeviceType::Valve => 0x28de,
        }
    }

    /// The vendor with the USB vendor id `id`, if it is a supported one.
    pub fn try_from_vendor_id(id: u16) -> (r: Option<VrDeviceType>)
        ensures
            r == vendor_of(id as int),
    {
        if id == 0x054c {
            Some(VrDeviceType::Sony)
        } else if id == 0x0bb4 {
            Some(VrDeviceType::HTC)
        } else if id == 0x17ef {
            Some(VrDeviceType::Lenovo)
        } else if id == 0x045e {
            Some(VrDeviceType::Microsoft)
        } else if id == 0x2833 {
            Some(VrDeviceType::Oculus)
        } else if id == 0x28de {
            Some(VrDeviceType::Valve)
        } else {
            None
        }
    }
}

/// What the USB subsystem tells of a device: its attributes and its device
/// path, each where it is present and readable as text.
#[derive(Debug)]
pub struct UsbDeviceInfo {
    pub id_vendor: Option<String>,
    pub id_product: Option<String>,
    pub serial: Option<String>,
    pub manufacturer: Option<String>,
    pub product: Option<String>,
    pub dev_path: Option<String>,
}

/// Why a device is not taken, or cannot be reached.
#[derive(Debug, Clone, Copy, PartialEq, Eq, Structural)]
pub enum DeviceError {
    /// The device path is not text.
    InvalidDevicePath,
    /// An attribute is missing, or the vendor is not a supported one.
    NotAVrDevice,
    /// The headset is not attached and has no network address.
    Unreachable,
    /// The headset is not attached and could not be connected to over the
    /// network.
    LanUnreachable,
}

impl DeviceError {
    /// The message of the error.
    pub open spec fn message_text(self) -> Seq<char> {
        match self {
            DeviceError::InvalidDevicePath => "Invalid device path"@,
            DeviceError::NotAVrDevice => "Unable to parse this device as a valid VR device"@,
            DeviceError::Unreachable => "Unable to connect to VR device"@,
            DeviceError::LanUnreachable => "Unable to connect to VR device via LAN"@,
        }
    }

    /// The message of the error.
    pub fn message(&self) -> (m: String)
        ensures
            m@ == self.message_text(),
    {
        match self {
            DeviceError::InvalidDevicePath => "Invalid device path".to_owned(),
            DeviceError::NotAVrDevice => "Unable to parse this device as a valid VR device".to_owned(),
            DeviceError::Unreachable => "Unable to connect to VR device".to_owned(),
            DeviceError::LanUnreachable => "Unable to connect to VR device via LAN".to_owned(),
        }
    }

    /// The error of the launch that this error ends: a headset that cannot
    /// be reached is reported as that; a device that is no headset is
    /// reported with its message.
    pub fn launch_error(&self) -> (r: LaunchError)
        ensures
            match self {
                DeviceError::Unreachable | DeviceError::LanUnreachable => r
                    == LaunchError::DeviceUnreachable,
                _ => r matches LaunchError::Other(m) && m@ == self.message_text(),
            },
    {
        match self {
            DeviceError::Unreachable | DeviceError::LanUnreachable => LaunchError::DeviceUnreachable,
            _ => LaunchError::Other(self.message()),
        }
    }
}

/// A headset.
#[derive(Debug, PartialEq, Eq)]
pub struct AdbVrDevice {
    pub is_usb_connected: bool,
    pub dev_type: VrDeviceType,
    pub product_id: u16,
    pub manufacturer: String,
    pub product_name: String,
    pub usb_serial: String,
    pub dev_path: String,
    pub ip_address: Option<String>,
}

/// The number that an attribute of four hexadecimal digits or fewer holds.
pub open spec fn hex_id(text: Option<String>) -> Option<int> {
    match text {
        Some(t) => within(unsigned_value(t@, true), 0xffff),
        None => None,
    }
}

/// Whether a device is taken for a headset: its path is known, all of its
/// attributes are present, its product id is a number, and its vendor is a
/// supported one.
pub open spec fn classified(info: UsbDeviceInfo) -> Result<(), DeviceError> {
    if info.dev_path.is_none() {
        Err(DeviceError::InvalidDevicePath)
    } else if hex_id(info.id_vendor).is_some() && vendor_of(hex_id(info.id_vendor).unwrap()).is_some()
        && hex_id(info.id_product).is_some() && info.serial.is_some()
        && info.manufacturer.is_some() && info.product.is_some() {
        Ok(())
    } else {
        Err(DeviceError::NotAVrDevice)
    }
}

/// Reads an attribute that holds a number of 16 bits in hexadecimal.
fn read_hex_id(text: &Option<String>) -> (r: Option<u16>)
    ensures
        match r {
            Some(n) => hex_id(*text) == Some(n as int),
            None => hex_id(*text).is_none(),
        },
{
    match text {
        Some(t) => {
            let chars = chars_of(t.as_str());
            match parse_unsigned(&chars, true, 0xffff) {
                Some(n) => Some(n as u16),
                None => None,
            }
        },
        None => None,
    }
}

/// The network address that `ip addr show` reports: of the first line that
/// holds `inet ` and `scope global`, the second of the pieces between
/// spaces, up to its first `/`.
pub open spec fn wlan_address(output: Seq<char>) -> Option<Seq<char>> {
    address_from(lines(output), 0)
}

/// The address on the first fitting line from `i` on.
pub open spec fn address_from(all: Seq<Seq<char>>, i: int) -> Option<Seq<char>>
    decreases all.len() - i,
{
    if i < 0 || i >= all.len() {
        None
    } else if contains_text(all[i], "inet "@) && contains_text(all[i], "scope global"@) {
        let pieces = split(trim(all[i]), seq![' ']);
        if pieces.len() >= 2 {
            Some(split(pieces[1], seq!['/'])[0])
        } else {
            None
        }
    } else {
        address_from(all, i + 1)
    }
}

/// Reads the headset's network address from the output of
/// `ip addr show wlan0`.
pub fn parse_wlan_address(output: &str) -> (r: Option<String>)
    ensures
        match r {
            Some(a) => wlan_address(output@) == Some(a@),
            None => wlan_address(output@).is_none(),
        },
{
    let chars = chars_of(output);
    let all = lines_exec(&chars);
    let inet = chars_of("inet ");
    let scope = chars_of("scope global");
    let mut space: Vec<char> = Vec::new();
    space.push(' ');
    let mut slash: Vec<char> = Vec::new();
    slash.push('/');
    assert(space@ =~= seq![' ']);
    assert(slash@ =~= seq!['/']);
    let mut i: usize = 0;
    while i < all.len()
        invariant
            i <= all.len(),
            rows(all@) == lines(output@),
            inet@ == "inet "@,
            scope@ == "scope global"@,
            space@ == seq![' '],
            slash@ == seq!['/'],
            address_from(lines(output@), i as int) == wlan_address(output@),
        decreases all.len() - i,
    {
        let line = &all[i];
        assert(rows(all@)[i as int] == line@);
        if contains_exec(line, &inet) && contains_exec(line, &scope) {
            let trimmed = trim_exec(line);
            let pieces = split_exec(&trimmed, &space);
            if pieces.len() >= 2 {
                assert(rows(pieces@)[1] == pieces@[1]@);
                let parts = split_exec(&pieces[1], &slash);
                assert(rows(parts@)[0] == parts@[0]@);
                return Some(string_of(&parts[0]));
            } else {
                return None;
            }
        }
        i = i + 1;
    }
    None
}

/// Whether the headset is worn, as `dumpsys power` reports it: the first
/// line of the form `mWakefulness=...` decides, and says yes with `Awake`.
pub open spec fn hmd_mounted(dump: Seq<char>) -> bool {
    mounted_from(lines(dump), 0)
}

/// What the first wakefulness line from `i` on says.
pub open spec fn mounted_from(all: Seq<Seq<char>>, i: int) -> bool
    decreases all.len() - i,
{
    if i < 0 || i >= all.len() {
        false
    } else {
        let parts = split(trim(all[i]), seq!['=']);
        if parts.len() == 2 && parts[0] == "mWakefulness"@ {
            parts[1] == "Awake"@
        } else {
            mounted_from(all, i + 1)
        }
    }
}

/// The text `ip:port`.
pub open spec fn tcp_address(ip: Seq<char>, port: nat) -> Seq<char> {
    ip + seq![':'] + decimal(port)
}

/// The text `tcp:port`.
pub open spec fn tcp_port(port: nat) -> Seq<char> {
    "tcp:"@ + decimal(port)
}

/// The port on which the device bridge listens on the headset.
pub const ADB_TCPIP_PORT: u32 = 5555;

impl AdbVrDevice {
    /// Takes a USB device for a headset, if it is one. The device counts as
    /// attached, and its network address is not known yet.
    pub fn try_from(info: UsbDeviceInfo) -> (r: Result<AdbVrDevice, DeviceError>)
        ensures
            match r {
                Ok(d) => classified(info).is_ok() && d == (AdbVrDevice {
                    is_usb_connected: true,
                    dev_type: vendor_of(hex_id(info.id_vendor).unwrap()).unwrap(),
                    product_id: hex_id(info.id_product).unwrap() as u16,
                    manufacturer: info.manufacturer.unwrap(),
                    product_name: info.product.unwrap(),
                    usb_serial: info.serial.unwrap(),
                    dev_path: info.dev_path.unwrap(),
                    ip_address: None,
                }),
                Err(e) => classified(info) == Err::<(), DeviceError>(e),
            },
    {
        let vendor = match read_hex_id(&info.id_vendor) {
            Some(id) => VrDeviceType::try_from_vendor_id(id),
            None => None,
        };
        let product_id = read_hex_id(&info.id_product);
        match (info.dev_path, vendor, product_id, info.serial, info.manufacturer, info.product) {
            (None, _, _, _, _, _) => Err(DeviceError::InvalidDevicePath),
            (
                Some(dev_path),
                Some(dev_type),
                Some(product_id),
                Some(usb_serial),
                Some(manufacturer),
                Some(product_name),
            ) => Ok(
                AdbVrDevice {
                    is_usb_connected: true,
                    dev_type,
                    product_id,
                    manufacturer,
                    product_name,
                    usb_serial,
                    dev_path,
                    ip_address: None,
                },
            ),
            _ => Err(DeviceError::NotAVrDevice),
        }
    }

    /// The device with the network address that `ip addr show wlan0`
    /// reported for it.
    pub fn with_address_from(self, ip_output: &str) -> (d: AdbVrDevice)
        ensures
            d == (AdbVrDevice { ip_address: d.ip_address, ..self }),
            match d.ip_address {
                Some(a) => wlan_address(ip_output@) == Some(a@),
                None => wlan_address(ip_output@).is_none(),
            },
    {
        AdbVrDevice {
            is_usb_connected: self.is_usb_connected,
            dev_type: self.dev_type,
            product_id: self.product_id,
            manufacturer: self.manufacturer,
            product_name: self.product_name,
            usb_serial: self.usb_serial,
            dev_path: self.dev_path,
            ip_address: parse_wlan_address(ip_output),
        }
    }

    /// A copy of the device.
    pub fn snapshot(&self) -> (d: AdbVrDevice)
        ensures
            d == *self,
    {
        AdbVrDevice {
            is_usb_connected: self.is_usb_connected,
            dev_type: self.dev_type,
            product_id: self.product_id,
            manufacturer: self.manufacturer.clone(),
            product_name: self.product_name.clone(),
            usb_serial: self.usb_serial.clone(),
            dev_path: self.dev_path.clone(),
            ip_address: match &self.ip_address {
                Some(a) => Some(a.clone()),
                None => None,
            },
        }
    }

    /// Whether the headset is worn, read from the output of `dumpsys power`.
    pub fn is_hmd_mounted(power_dump: &str) -> (r: bool)
        ensures
            r == hmd_mounted(power_dump@),
    {
        let chars = chars_of(power_dump);
        let all = lines_exec(&chars);
        let mut equals: Vec<char> = Vec::new();
        equals.push('=');
        assert(equals@ =~= seq!['=']);
        let mut i: usize = 0;
        while i < all.len()
            invariant
                i <= all.len(),
                rows(all@) == lines(power_dump@),
                equals@ == seq!['='],
                mounted_from(lines(power_dump@), i as int) == hmd_mounted(power_dump@),
            decreases all.len() - i,
        {
            assert(rows(all@)[i as int] == all@[i as int]@);
            let line = trim_exec(&all[i]);
            let parts = split_exec(&line, &equals);
            if parts.len() == 2 {
                assert(rows(parts@)[0] == parts@[0]@);
                assert(rows(parts@)[1] == parts@[1]@);
                if is_text(&parts[0], "mWakefulness") {
                    return is_text(&parts[1], "Awake");
                }
            }
            i = i + 1;
        }
        false
    }

    /// Whether reaching the headset takes a network connection first: it is
    /// not attached, but its address is known.
    pub fn needs_network(&self) -> (r: bool)
        ensures
            r == (!self.is_usb_connected && self.ip_address.is_some()),
    {
        !self.is_usb_connected && self.ip_address.is_some()
    }

    /// The name under which the device bridge addresses the headset: its
    /// serial while it is attached; else its network address and port,
    /// where it has an address and the connection over the network was
    /// made.
    pub fn get_conn_id(&self, network_connected: bool) -> (r: Result<String, DeviceError>)
        ensures
            match r {
                Ok(id) => if self.is_usb_connected {
                    id@ == self.usb_serial@
                } else {
                    network_connected && self.ip_address.is_some() && id@ == tcp_address(
                        self.ip_address.unwrap()@,
                        ADB_TCPIP_PORT as nat,
                    )
                },
                Err(e) => !self.is_usb_connected && e == (if self.ip_address.is_some() {
                    DeviceError::LanUnreachable
                } else {
                    DeviceError::Unreachable
                }) && (self.ip_address.is_some() ==> !network_connected),
            },
    {
        if self.is_usb_connected {
            return Ok(self.usb_serial.clone());
        }
        match &self.ip_address {
            Some(ip) => {
                if network_connected {
                    Ok(address_text(ip.as_str(), ADB_TCPIP_PORT))
                } else {
                    Err(DeviceError::LanUnreachable)
                }
            },
            None => Err(DeviceError::Unreachable),
        }
    }
}

/// The text `ip:port`.
pub fn address_text(ip: &str, port: u32) -> (r: String)
    ensures
        r@ == tcp_address(ip@, port as nat),
{
    let mut r = ip.to_owned();
    let mut tail: Vec<char> = Vec::new();
    tail.push(':');
    let digits = to_decimal(port as u64);
    let tail_text = string_of(&tail);
    r.append(tail_text.as_str());
    let digit_text = string_of(&digits);
    r.append(digit_text.as_str());
    assert(r@ =~= tcp_address(ip@, port as nat));
    r
}

/// The text `tcp:port`.
pub fn port_text(port: u32) -> (r: String)
    ensures
        r@ == tcp_port(port as nat),
{
    let mut r = "tcp:".to_owned();
    let digit_text = string_of(&to_decimal(port as u64));
    r.append(digit_text.as_str());
    r
}

/// The arguments of the device bridge for a command in the shell of the
/// device with the name `conn_id`.
pub open spec fn shell_arguments(conn_id: Seq<char>, command: Seq<Seq<char>>) -> Seq<Seq<char>> {
    seq!["-s"@, conn_id, "shell"@] + command
}

/// The arguments of the device bridge that forward a port of the device to
/// the same port here.
pub open spec fn tunnel_arguments(conn_id: Seq<char>, port: nat) -> Seq<Seq<char>> {
    seq!["-s"@, conn_id, "reverse"@, tcp_port(port), tcp_port(port)]
}

/// The arguments of the device bridge that connect to a device over the
/// network.
pub open spec fn connect_arguments(ip: Seq<char>, port: nat) -> Seq<Seq<char>> {
    seq!["connect"@, tcp_address(ip, port)]
}

impl AdbVrDevice {
    /// The arguments of the device bridge for a command in the shell of
    /// the device.
    pub fn adb_shell_command(conn_id: &str, command_args: &Vec<String>) -> (args: Vec<String>)
        ensures
            crate::text::texts(args@) == shell_arguments(conn_id@, crate::text::texts(command_args@)),
    {
        let mut args: Vec<String> = Vec::new();
        args.push("-s".to_owned());
        args.push(conn_id.to_owned());
        args.push("shell".to_owned());
        let mut i: usize = 0;
        assert(crate::text::texts(args@) =~= seq!["-s"@, conn_id@, "shell"@] + crate::text::texts(
            command_args@,
        ).take(0));
        while i < command_args.len()
            invariant
                i <= command_args.len(),
                crate::text::texts(args@) == seq!["-s"@, conn_id@, "shell"@] + crate::text::texts(
                    command_args@,
                ).take(i as int),
            decreases command_args.len() - i,
        {
            let a = command_args[i].clone();
            proof {
                crate::text::lemma_texts_push(args@, a);
                assert(crate::text::texts(args@).push(a@) =~= seq!["-s"@, conn_id@, "shell"@]
                    + crate::text::texts(command_args@).take(i + 1));
            }
            args.push(a);
            i = i + 1;
        }
        assert(crate::text::texts(command_args@).take(i as int) =~= crate::text::texts(
            command_args@,
        ));
        args
    }

    /// The arguments of the device bridge that forward the port `port` of
    /// the device to the same port here.
    pub fn try_open_tcp_tunnel(conn_id: &str, port: u32) -> (args: Vec<String>)
        ensures
            crate::text::texts(args@) == tunnel_arguments(conn_id@, port as nat),
    {
        let mut args: Vec<String> = Vec::new();
        args.push("-s".to_owned());
        args.push(conn_id.to_owned());
        args.push("reverse".to_owned());
        args.push(port_text(port));
        args.push(port_text(port));
        assert(crate::text::texts(args@) =~= tunnel_arguments(conn_id@, port as nat));
        args
    }

    /// The arguments of the device bridge that connect to the device over
    /// the network, where its address is known.
    pub fn try_connect_tcpip(&self, port: u32) -> (args: Option<Vec<String>>)
        ensures
            match args {
                Some(a) => self.ip_address.is_some() && crate::text::texts(a@) == connect_arguments(
                    self.ip_address.unwrap()@,
                    port as nat,
                ),
                None => self.ip_address.is_none(),
            },
    {
        match &self.ip_address {
            Some(ip) => {
                let mut args: Vec<String> = Vec::new();
                args.push("connect".to_owned());
                args.push(address_text(ip.as_str(), port));
                assert(crate::text::texts(args@) =~= connect_arguments(ip@, port as nat));
                Some(args)
            },
            None => None,
        }
    }
}

} // verus!
