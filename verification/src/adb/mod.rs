//! The headset, as the device bridge and the USB subsystem show it.

pub mod adb_device;
pub mod device_manager;
pub mod wifi_info;
