//! Requests on the audio endpoints.

use crate::audio_api::{device_position, device_views, find_device, AudioDevice, EndpointKind};
use crate::text::str_equal;
use vstd::prelude::*;

verus! {

/// The volume that a request sets.
#[derive(Debug)]
pub struct AudioVolumeControl {
    pub volume: u8,
    pub muted: bool,
}

/// The kind of endpoint that a request names: `inputs` or `outputs`.
pub open spec fn endpoint_named(endpoint: Seq<char>) -> Option<EndpointKind> {
    if endpoint == "inputs"@ {
        Some(EndpointKind::Source)
    } else if endpoint == "outputs"@ {
        Some(EndpointKind::Sink)
    } else {
        None
    }
}

/// The kind of endpoint that a request names, or `None` for a request
/// that names neither kind.
pub fn parse_endpoint(endpoint: &str) -> (r: Option<EndpointKind>)
    ensures
        r == endpoint_named(endpoint@),
{
    if str_equal(endpoint, "inputs") {
        Some(EndpointKind::Source)
    } else if str_equal(endpoint, "outputs") {
        Some(EndpointKind::Sink)
    } else {
        None
    }
}

/// The device that a request for the id `endpoint_id` means, if there is
/// one among `devices`.
pub fn find_endpoint(devices: &Vec<AudioDevice>, endpoint_id: u32) -> (r: Option<&AudioDevice>)
    ensures
        match r {
            Some(d) => {
                let at = device_position(device_views(devices@), endpoint_id, 0);
                at < devices@.len() && *d == devices@[at]
            },
            None => device_position(device_views(devices@), endpoint_id, 0) >= devices@.len(),
        },
{
    let at = find_device(devices, endpoint_id);
    if at < devices.len() {
        Some(&devices[at])
    } else {
        None
    }
}

/// The volume that is handed on: never more than 100.
pub fn clamp_volume(volume: u8) -> (r: u8)
    ensures
        r == (if volume > 100 {
            100u8
        } else {
            volume
        }),
{
    if volume > 100 {
        100
    } else {
        volume
    }
}

} // verus!
