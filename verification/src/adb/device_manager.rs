//! Which headset is the current one.
//!
//! The registry holds at most one device. A listener for hotplug events
//! owns the outside work; it hands each event to the registry, which says
//! whether the subscribers are to be told to refresh.

use crate::adb::adb_device::{AdbVrDevice, DeviceError};
use crate::text::{chars_of, is_text, str_equal};
use vstd::prelude::*;

verus! {

/// What a hotplug event says was done to a device.
#[derive(Debug, Clone, Copy, PartialEq, Eq, Structural)]
pub enum HotplugAction {
    Bind,
    Unbind,
    /// Any other action, or none.
    Other,
}

/// The action that the text of an event names.
pub open spec fn action_named(name: Option<Seq<char>>) -> HotplugAction {
    if name == Some("bind"@) {
        HotplugAction::Bind
    } else if name == Some("unbind"@) {
        HotplugAction::Unbind
    } else {
        HotplugAction::Other
    }
}

/// The action that the text of an event names.
pub fn parse_action(name: Option<&str>) -> (r: HotplugAction)
    ensures
        r == action_named(
            match name {
                Some(n) => Some(n@),
                None => None,
            },
        ),
{
    match name {
        Some(n) => {
            let chars = chars_of(n);
            if is_text(&chars, "bind") {
                HotplugAction::Bind
            } else if is_text(&chars, "unbind") {
                HotplugAction::Unbind
            } else {
                HotplugAction::Other
            }
        },
        None => HotplugAction::Other,
    }
}

/// The registry of the current headset.
pub struct DeviceManager {
    current_device: Option<AdbVrDevice>,
}

/// The current device after a device was bound: a headset replaces the
/// current device; anything else leaves it.
pub open spec fn after_bind(
    current: Option<AdbVrDevice>,
    bound: Result<AdbVrDevice, DeviceError>,
) -> Option<AdbVrDevice> {
    match bound {
        Ok(device) => Some(device),
        Err(_) => current,
    }
}

/// The current device after the device at `dev_path` was unbound: where
/// that is the current device's path, the device is no longer attached,
/// and nothing else of it changes.
pub open spec fn after_unbind(current: Option<AdbVrDevice>, dev_path: Seq<char>) -> Option<
    AdbVrDevice,
> {
    match current {
        Some(device) => if device.dev_path@ == dev_path {
            Some(AdbVrDevice { is_usb_connected: false, ..device })
        } else {
            current
        },
        None => None,
    }
}

/// Whether an unbind of `dev_path` concerns the current device.
pub open spec fn unbind_matches(current: Option<AdbVrDevice>, dev_path: Seq<char>) -> bool {
    current matches Some(device) && device.dev_path@ == dev_path
}

/// The first headset among the devices of a scan.
pub open spec fn first_headset(found: Seq<Result<AdbVrDevice, DeviceError>>, i: int) -> Option<
    AdbVrDevice,
>
    decreases found.len() - i,
{
    if i < 0 || i >= found.len() {
        None
    } else {
        match found[i] {
            Ok(device) => Some(device),
            Err(_) => first_headset(found, i + 1),
        }
    }
}

impl DeviceManager {
    /// The current device.
    pub closed spec fn device(&self) -> Option<AdbVrDevice> {
        self.current_device
    }

    /// A registry seeded with what a scan of the attached devices found.
    pub fn new(found: Option<AdbVrDevice>) -> (m: DeviceManager)
        ensures
            m.device() == found,
    {
        DeviceManager { current_device: found }
    }

    /// The first headset among the devices of a scan, each given as what
    /// came of taking it for a headset.
    pub fn find_connected_device(found: Vec<Result<AdbVrDevice, DeviceError>>) -> (r: Option<
        AdbVrDevice,
    >)
        ensures
            r == first_headset(found@, 0),
    {
        let mut rest = found;
        let ghost all = rest@;
        let mut i: usize = 0;
        while i < rest.len()
            invariant
                i <= rest.len(),
                rest@ == all,
                all == found@,
                first_headset(all, i as int) == first_headset(all, 0),
            decreases rest.len() - i,
        {
            if rest[i].is_ok() {
                let taken = rest.remove(i);
                return match taken {
                    Ok(device) => Some(device),
                    Err(_) => None,
                };
            }
            i = i + 1;
        }
        None
    }

    /// A snapshot of the current device. Nothing outside is asked.
    pub fn get_current_device_async(&self) -> (r: Option<AdbVrDevice>)
        ensures
            r == self.device(),
    {
        match &self.current_device {
            Some(device) => Some(device.snapshot()),
            None => None,
        }
    }

    /// A device was bound. `bound` is what came of taking it for a headset.
    /// Returns whether the subscribers are to be told to refresh.
    pub fn on_bind(&mut self, bound: Result<AdbVrDevice, DeviceError>) -> (notify: bool)
        ensures
            final(self).device() == after_bind(old(self).device(), bound),
            notify == bound.is_ok(),
    {
        match bound {
            Ok(device) => {
                self.current_device = Some(device);
                true
            },
            Err(_) => false,
        }
    }

    /// The device at `dev_path` was unbound. Returns whether the
    /// subscribers are to be told to refresh.
    pub fn on_unbind(&mut self, dev_path: &str) -> (notify: bool)
        ensures
            final(self).device() == after_unbind(old(self).device(), dev_path@),
            notify == unbind_matches(old(self).device(), dev_path@),
    {
        match self.current_device.take() {
            Some(device) => {
                if str_equal(device.dev_path.as_str(), dev_path) {
                    self.current_device = Some(
                        AdbVrDevice {
                            is_usb_connected: false,
                            dev_type: device.dev_type,
                            product_id: device.product_id,
                            manufacturer: device.manufacturer,
                            product_name: device.product_name,
                            usb_serial: device.usb_serial,
                            dev_path: device.dev_path,
                            ip_address: device.ip_address,
                        },
                    );
                    true
                } else {
                    self.current_device = Some(device);
                    false
                }
            },
            None => false,
        }
    }

    /// Takes a hotplug event in: a bind or an unbind, as above; any other
    /// action changes nothing. `bound` is what came of taking the device of
    /// a bind event for a headset, and is not looked at otherwise.
    pub fn handle_event(
        &mut self,
        action: HotplugAction,
        dev_path: &str,
        bound: Result<AdbVrDevice, DeviceError>,
    ) -> (notify: bool)
        ensures
            final(self).device() == (match action {
                HotplugAction::Bind => after_bind(old(self).device(), bound),
                HotplugAction::Unbind => after_unbind(old(self).device(), dev_path@),
                HotplugAction::Other => old(self).device(),
            }),
            notify == (match action {
                HotplugAction::Bind => bound.is_ok(),
                HotplugAction::Unbind => unbind_matches(old(self).device(), dev_path@),
                HotplugAction::Other => false,
            }),
    {
        match action {
            HotplugAction::Bind => self.on_bind(bound),
            HotplugAction::Unbind => self.on_unbind(dev_path),
            HotplugAction::Other => false,
        }
    }
}

/// After an unbind whose path is the current device's, the device is no
/// longer attached and every other field of it is as before. A bind of a
/// headset after that replaces the device as a whole: nothing of the old
/// one is left, its serial included.
pub proof fn law_unbind_then_bind(device: AdbVrDevice, other: AdbVrDevice)
    ensures
        after_unbind(Some(device), device.dev_path@) == Some(
            AdbVrDevice { is_usb_connected: false, ..device },
        ),
        after_bind(after_unbind(Some(device), device.dev_path@), Ok(other)) == Some(other),
{
}

/// An unbind of another path leaves the current device as it is.
pub proof fn law_unbind_elsewhere(current: Option<AdbVrDevice>, dev_path: Seq<char>)
    requires
        !unbind_matches(current, dev_path),
    ensures
        after_unbind(current, dev_path) == current,
{
}

} // verus!
