use vr_launcher::adb::adb_device::{
    address_text, parse_wlan_address, port_text, AdbVrDevice, DeviceError, UsbDeviceInfo,
    VrDeviceType,
};
use vr_launcher::adb::device_manager::{parse_action, DeviceManager, HotplugAction};
use vr_launcher::adb::wifi_info::{WifiInfo, WifiParseError};

fn quest(path: &str, serial: &str) -> UsbDeviceInfo {
    UsbDeviceInfo {
        id_vendor: Some("2833".to_string()),
        id_product: Some("0186".to_string()),
        serial: Some(serial.to_string()),
        manufacturer: Some("Oculus".to_string()),
        product: Some("Quest 2".to_string()),
        dev_path: Some(path.to_string()),
    }
}

#[test]
fn supported_vendor_is_classified() {
    let d = AdbVrDevice::try_from(quest("/devices/usb1/1-2", "ABC123")).unwrap();
    assert!(d.is_usb_connected);
    assert_eq!(d.dev_type, VrDeviceType::Oculus);
    assert_eq!(d.product_id, 0x0186);
    assert_eq!(d.usb_serial, "ABC123");
    assert_eq!(d.manufacturer, "Oculus");
    assert_eq!(d.product_name, "Quest 2");
    assert_eq!(d.dev_path, "/devices/usb1/1-2");
    assert_eq!(d.ip_address, None);
}

#[test]
fn vendor_ids_round_trip() {
    for v in [
        VrDeviceType::Sony,
        VrDeviceType::HTC,
        VrDeviceType::Lenovo,
        VrDeviceType::Microsoft,
        VrDeviceType::Oculus,
        VrDeviceType::Valve,
    ] {
        assert_eq!(VrDeviceType::try_from_vendor_id(v.vendor_id()), Some(v));
    }
    assert_eq!(VrDeviceType::Valve.vendor_id(), 0x28de);
    assert_eq!(VrDeviceType::try_from_vendor_id(0x1234), None);
}

#[test]
fn unsupported_or_incomplete_devices_are_refused() {
    let mut info = quest("/p", "S");
    info.id_vendor = Some("1d6b".to_string());
    assert_eq!(AdbVrDevice::try_from(info), Err(DeviceError::NotAVrDevice));
    let mut info = quest("/p", "S");
    info.serial = None;
    assert_eq!(AdbVrDevice::try_from(info), Err(DeviceError::NotAVrDevice));
    let mut info = quest("/p", "S");
    info.id_product = Some("xyz".to_string());
    assert_eq!(AdbVrDevice::try_from(info), Err(DeviceError::NotAVrDevice));
    let mut info = quest("/p", "S");
    info.id_vendor = Some("12833".to_string());
    assert_eq!(AdbVrDevice::try_from(info), Err(DeviceError::NotAVrDevice));
    let mut info = quest("/p", "S");
    info.dev_path = None;
    assert_eq!(AdbVrDevice::try_from(info), Err(DeviceError::InvalidDevicePath));
    let mut info = quest("/p", "S");
    info.id_vendor = Some("28DE".to_string());
    assert_eq!(AdbVrDevice::try_from(info).unwrap().dev_type, VrDeviceType::Valve);
}

#[test]
fn wlan_address_is_read() {
    let out = "3: wlan0: <BROADCAST,MULTICAST,UP,LOWER_UP> mtu 1500\n    link/ether aa:bb brd ff:ff\n    inet 192.168.1.23/24 brd 192.168.1.255 scope global wlan0\n    inet6 fe80::1/64 scope link\n";
    assert_eq!(parse_wlan_address(out), Some("192.168.1.23".to_string()));
    assert_eq!(parse_wlan_address("nothing here"), None);
    assert_eq!(parse_wlan_address("inet scope global"), Some("scope".to_string()));
    let d = AdbVrDevice::try_from(quest("/p", "S")).unwrap().with_address_from(out);
    assert_eq!(d.ip_address, Some("192.168.1.23".to_string()));
    assert_eq!(d.usb_serial, "S");
}

#[test]
fn hmd_mounted_is_read_from_wakefulness() {
    assert!(AdbVrDevice::is_hmd_mounted("POWER MANAGER\n  mWakefulness=Awake\n  other=1\n"));
    assert!(!AdbVrDevice::is_hmd_mounted("  mWakefulness=Asleep\n  mWakefulness=Awake\n"));
    assert!(!AdbVrDevice::is_hmd_mounted("no such line\n"));
    assert!(!AdbVrDevice::is_hmd_mounted(""));
    assert!(AdbVrDevice::is_hmd_mounted("mWakefulness=a=b\r\nmWakefulness=Awake\r\n"));
}

#[test]
fn connection_id_prefers_usb() {
    let d = AdbVrDevice::try_from(quest("/p", "SER")).unwrap();
    assert!(!d.needs_network());
    assert_eq!(d.get_conn_id(false), Ok("SER".to_string()));
    let mut d = d.with_address_from("inet 10.0.0.5/8 scope global");
    d.is_usb_connected = false;
    assert!(d.needs_network());
    assert_eq!(d.get_conn_id(true), Ok("10.0.0.5:5555".to_string()));
    assert_eq!(d.get_conn_id(false), Err(DeviceError::LanUnreachable));
    d.ip_address = None;
    assert_eq!(d.get_conn_id(true), Err(DeviceError::Unreachable));
}

#[test]
fn bridge_arguments() {
    assert_eq!(address_text("1.2.3.4", 5555), "1.2.3.4:5555");
    assert_eq!(port_text(9757), "tcp:9757");
    assert_eq!(port_text(0), "tcp:0");
    assert_eq!(
        AdbVrDevice::adb_shell_command("SER", &vec!["dumpsys".to_string(), "battery".to_string()]),
        vec!["-s", "SER", "shell", "dumpsys", "battery"]
    );
    assert_eq!(
        AdbVrDevice::try_open_tcp_tunnel("SER", 9757),
        vec!["-s", "SER", "reverse", "tcp:9757", "tcp:9757"]
    );
    let d = AdbVrDevice::try_from(quest("/p", "SER")).unwrap();
    assert_eq!(d.try_connect_tcpip(5555), None);
    let d = d.with_address_from("inet 10.0.0.5/8 scope global");
    assert_eq!(d.try_connect_tcpip(5555), Some(vec!["connect".to_string(), "10.0.0.5:5555".to_string()]));
}

#[test]
fn unbind_clears_connectivity_and_bind_replaces() {
    let first = AdbVrDevice::try_from(quest("/devices/a", "OLD")).unwrap();
    let mut m = DeviceManager::new(Some(first.snapshot()));
    assert_eq!(m.get_current_device_async(), Some(first.snapshot()));

    // an unbind elsewhere changes nothing
    assert!(!m.on_unbind("/devices/b"));
    assert_eq!(m.get_current_device_async(), Some(first.snapshot()));

    assert!(m.on_unbind("/devices/a"));
    let now = m.get_current_device_async().unwrap();
    assert!(!now.is_usb_connected);
    let mut expected = first.snapshot();
    expected.is_usb_connected = false;
    assert_eq!(now, expected);

    let other = AdbVrDevice::try_from(quest("/devices/b", "NEW")).unwrap();
    assert!(m.on_bind(Ok(other.snapshot())));
    let now = m.get_current_device_async().unwrap();
    assert_eq!(now, other);
    assert_eq!(now.usb_serial, "NEW");
    assert!(now.is_usb_connected);

    // a bound device that is no headset changes nothing
    assert!(!m.on_bind(Err(DeviceError::NotAVrDevice)));
    assert_eq!(m.get_current_device_async().unwrap().usb_serial, "NEW");
}

#[test]
fn hotplug_events() {
    assert_eq!(parse_action(Some("bind")), HotplugAction::Bind);
    assert_eq!(parse_action(Some("unbind")), HotplugAction::Unbind);
    assert_eq!(parse_action(Some("add")), HotplugAction::Other);
    assert_eq!(parse_action(None), HotplugAction::Other);
    let mut m = DeviceManager::new(None);
    assert!(!m.handle_event(HotplugAction::Unbind, "/x", Err(DeviceError::NotAVrDevice)));
    let d = AdbVrDevice::try_from(quest("/x", "S")).unwrap();
    assert!(!m.handle_event(HotplugAction::Other, "/x", Ok(d.snapshot())));
    assert_eq!(m.get_current_device_async(), None);
    assert!(m.handle_event(HotplugAction::Bind, "/x", Ok(d.snapshot())));
    assert!(m.handle_event(HotplugAction::Unbind, "/x", Err(DeviceError::NotAVrDevice)));
    assert!(!m.get_current_device_async().unwrap().is_usb_connected);
}

#[test]
fn scan_takes_the_first_headset() {
    let a = AdbVrDevice::try_from(quest("/a", "A")).unwrap();
    let b = AdbVrDevice::try_from(quest("/b", "B")).unwrap();
    let found = DeviceManager::find_connected_device(vec![
        Err(DeviceError::NotAVrDevice),
        Ok(a.snapshot()),
        Ok(b),
    ]);
    assert_eq!(found, Some(a));
    assert_eq!(DeviceManager::find_connected_device(vec![Err(DeviceError::NotAVrDevice)]), None);
    assert_eq!(DeviceManager::find_connected_device(vec![]), None);
}

#[test]
fn wifi_info_is_read() {
    let line = "mWifiInfo SSID: \"Home\", BSSID: aa:bb:cc:dd:ee:ff, MAC: 11:22:33:44:55:66, IP: /192.168.1.5, Wi-Fi standard: 6, RSSI: -52, Link speed: 866Mbps, Tx Link speed: 780Mbps, Max Supported Tx Link speed: 1200Mbps, Rx Link speed: 866Mbps, Max Supported Rx Link speed: 1200Mbps, Frequency: 5180MHz, isPrimary: 1";
    let info = WifiInfo::parse_from(line).unwrap();
    assert_eq!(info.ssid, "Home");
    assert_eq!(info.bssid, "aa:bb:cc:dd:ee:ff");
    assert_eq!(info.mac, "11:22:33:44:55:66");
    assert_eq!(info.ip, "/192.168.1.5");
    assert_eq!(info.standard, "6");
    assert_eq!(info.rssi, -52);
    assert_eq!(info.link_speed, 866_000_000);
    assert_eq!(info.max_tx_link_speed, 1_200_000_000);
    assert_eq!(info.max_rx_link_speed, 1_200_000_000);
    // the keys written with a capital letter are never met
    assert_eq!(info.tx_link_speed, 0);
    assert_eq!(info.rx_link_speed, 0);
    assert_eq!(info.frequency_mhz, 5180);
}

#[test]
fn wifi_info_gives_up_or_fails() {
    assert_eq!(WifiInfo::try_parse_from("SSID: x, isPrimary: 0"), Ok(None));
    assert_eq!(WifiInfo::try_parse_from("Link speed: 12 Mbps"), Ok(None));
    assert_eq!(WifiInfo::try_parse_from("Link speed: -5Mbps"), Ok(None));
    assert_eq!(WifiInfo::try_parse_from("novalue"), Err(WifiParseError::MissingValue));
    assert_eq!(WifiInfo::try_parse_from(""), Err(WifiParseError::MissingValue));
    assert_eq!(WifiInfo::try_parse_from("RSSI: loud"), Err(WifiParseError::InvalidNumber));
    assert_eq!(WifiInfo::try_parse_from("RSSI: 40000"), Err(WifiParseError::InvalidNumber));
    assert_eq!(WifiInfo::try_parse_from("Frequency: MHz"), Err(WifiParseError::InvalidNumber));
    assert_eq!(WifiInfo::try_parse_from("Link speed: Mbps"), Err(WifiParseError::InvalidNumber));
    assert_eq!(WifiInfo::try_parse_from("Link speed: 5é"), Err(WifiParseError::NotAscii));
    assert_eq!(
        WifiInfo::try_parse_from("Link speed: 99999999999999999Mbps"),
        Err(WifiParseError::Overflow)
    );
    assert_eq!(WifiInfo::check("SSID: a"), Ok(()));
    // only the first line is read
    let info = WifiInfo::try_parse_from("SSID: a\nSSID: b").unwrap().unwrap();
    assert_eq!(info.ssid, "a");
}

#[test]
fn speeds() {
    assert_eq!(WifiInfo::parse_speed("866Mbps"), Ok(Some(866_000_000)));
    assert_eq!(WifiInfo::parse_speed("54Kbps"), Ok(Some(54_000)));
    assert_eq!(WifiInfo::parse_speed("7bps"), Ok(Some(7)));
    assert_eq!(WifiInfo::parse_speed("7"), Ok(Some(7)));
    assert_eq!(WifiInfo::parse_speed("7M7"), Ok(None));
    assert_eq!(WifiInfo::parse_speed("-1"), Ok(None));
    assert_eq!(WifiInfo::parse_speed(""), Err(WifiParseError::InvalidNumber));
    assert_eq!(WifiInfo::parse_speed("1-1"), Err(WifiParseError::InvalidNumber));
}

#[test]
fn device_errors_end_the_launch() {
    assert_eq!(
        DeviceError::Unreachable.launch_error(),
        vr_launcher::app_state::LaunchError::DeviceUnreachable
    );
    assert_eq!(
        DeviceError::LanUnreachable.launch_error(),
        vr_launcher::app_state::LaunchError::DeviceUnreachable
    );
    assert_eq!(
        DeviceError::NotAVrDevice.launch_error(),
        vr_launcher::app_state::LaunchError::Other(
            "Unable to parse this device as a valid VR device".to_string()
        )
    );
    assert_eq!(DeviceError::InvalidDevicePath.message(), "Invalid device path");
    assert_eq!(
        DeviceError::LanUnreachable.message(),
        "Unable to connect to VR device via LAN"
    );
    assert_eq!(DeviceError::Unreachable.message(), "Unable to connect to VR device");
}
