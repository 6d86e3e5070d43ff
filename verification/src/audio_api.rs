//! Audio endpoints as the audio graph reports them.

use crate::text::str_equal;
use vstd::prelude::*;

verus! {

/// One audio endpoint: a source or a sink.
#[derive(Debug, PartialEq, Eq, Hash, Clone)]
pub struct AudioDevice {
    pub id: u32,
    pub name: String,
    pub description: String,
    pub is_default: bool,
    pub pod_bytes: Option<Vec<u8>>,
    pub volume: u8,
    pub is_muted: bool,
}

/// What changed in the audio graph.
#[derive(Debug, Clone)]
pub enum DeviceChangeEvent {
    DefaultInputChanged(AudioDevice),
    DefaultOutputChanged(AudioDevice),
    VolumeMuteChanged(AudioDevice),
}

/// What an `AudioDevice` holds.
pub struct AudioDeviceView {
    pub id: u32,
    pub name: Seq<char>,
    pub description: Seq<char>,
    pub is_default: bool,
    pub pod_bytes: Option<Seq<u8>>,
    pub volume: u8,
    pub is_muted: bool,
}

impl View for AudioDevice {
    type V = AudioDeviceView;

    open spec fn view(&self) -> AudioDeviceView {
        AudioDeviceView {
            id: self.id,
            name: self.name@,
            description: self.description@,
            is_default: self.is_default,
            pod_bytes: match self.pod_bytes {
                Some(b) => Some(b@),
                None => None,
            },
            volume: self.volume,
            is_muted: self.is_muted,
        }
    }
}

impl AudioDevice {
    /// A copy of the device.
    pub fn snapshot(&self) -> (d: AudioDevice)
        ensures
            d@ == self@,
    {
        AudioDevice {
            id: self.id,
            name: self.name.clone(),
            description: self.description.clone(),
            is_default: self.is_default,
            pod_bytes: match &self.pod_bytes {
                Some(b) => Some(b.clone()),
                None => None,
            },
            volume: self.volume,
            is_muted: self.is_muted,
        }
    }
}

/// The views of a list of devices.
pub open spec fn device_views(devices: Seq<AudioDevice>) -> Seq<AudioDeviceView> {
    devices.map_values(|d: AudioDevice| d@)
}

/// The kinds of audio endpoint.
#[derive(Debug, Clone, Copy, PartialEq, Eq, Structural)]
pub enum EndpointKind {
    /// A source: an input device.
    Source,
    /// A sink: an output device.
    Sink,
}

/// The kind of endpoint that a media class names.
pub open spec fn endpoint_kind(class: Seq<char>) -> Option<EndpointKind> {
    if class == "Audio/Source"@ {
        Some(EndpointKind::Source)
    } else if class == "Audio/Sink"@ {
        Some(EndpointKind::Sink)
    } else {
        None
    }
}

/// The kind of endpoint that a media class names.
pub fn parse_endpoint_kind(class: &str) -> (r: Option<EndpointKind>)
    ensures
        r == endpoint_kind(class@),
{
    if str_equal(class, "Audio/Source") {
        Some(EndpointKind::Source)
    } else if str_equal(class, "Audio/Sink") {
        Some(EndpointKind::Sink)
    } else {
        None
    }
}

/// The position of the device with the id `id`, from `i` on, or the number
/// of devices.
pub open spec fn device_position(devices: Seq<AudioDeviceView>, id: u32, i: int) -> int
    decreases devices.len() - i,
{
    if i < 0 || i >= devices.len() || devices[i].id == id {
        i
    } else {
        device_position(devices, id, i + 1)
    }
}

/// The devices with `device` among them: in the place of the one with its
/// id, or at the end.
pub open spec fn with_device(devices: Seq<AudioDeviceView>, device: AudioDeviceView) -> Seq<
    AudioDeviceView,
> {
    let at = device_position(devices, device.id, 0);
    if at < devices.len() {
        devices.update(at, device)
    } else {
        devices.push(device)
    }
}

/// The devices without the first one that has the id `id`.
pub open spec fn without_device(devices: Seq<AudioDeviceView>, id: u32) -> Seq<AudioDeviceView> {
    let at = device_position(devices, id, 0);
    if at < devices.len() {
        devices.remove(at)
    } else {
        devices
    }
}

/// A device as it is when it appears: not the default, at full volume.
pub open spec fn fresh_device(id: u32, name: Seq<char>, description: Seq<char>) -> AudioDeviceView {
    AudioDeviceView {
        id,
        name,
        description,
        is_default: false,
        pod_bytes: None,
        volume: 100,
        is_muted: false,
    }
}

/// The position of the device in a list with the id `id`.
pub fn find_device(devices: &Vec<AudioDevice>, id: u32) -> (at: usize)
    ensures
        at == device_position(device_views(devices@), id, 0),
        at <= devices.len(),
{
    let mut i: usize = 0;
    while i < devices.len()
        invariant
            i <= devices.len(),
            device_position(device_views(devices@), id, i as int) == device_position(
                device_views(devices@),
                id,
                0,
            ),
        decreases devices.len() - i,
    {
        if devices[i].id == id {
            return i;
        }
        i = i + 1;
    }
    i
}

/// Puts `device` into a list: in the place of the one with its id, or at
/// the end.
pub fn put_device(devices: &mut Vec<AudioDevice>, device: AudioDevice)
    ensures
        device_views(final(devices)@) == with_device(device_views(old(devices)@), device@),
{
    let at = find_device(devices, device.id);
    if at < devices.len() {
        devices.set(at, device);
        assert(device_views(devices@) =~= with_device(device_views(old(devices)@), device@));
    } else {
        devices.push(device);
        assert(device_views(devices@) =~= with_device(device_views(old(devices)@), device@));
    }
}

/// Takes the device with the id `id` out of a list.
pub fn drop_device(devices: &mut Vec<AudioDevice>, id: u32)
    ensures
        device_views(final(devices)@) == without_device(device_views(old(devices)@), id),
{
    let at = find_device(devices, id);
    if at < devices.len() {
        devices.remove(at);
        assert(device_views(devices@) =~= without_device(device_views(old(devices)@), id));
    }
}

/// The seconds after which the wait for the backend's audio endpoints is
/// given up.
pub const AUDIO_WAIT_TIMEOUT_SECS: u64 = 3;

/// What the wait for the backend's audio endpoints does next.
#[derive(Debug, Clone, Copy, PartialEq, Eq, Structural)]
pub enum AudioWait {
    /// Both endpoints are there.
    Found,
    /// The time has run out: the launch goes on without them.
    GiveUp,
    /// Look again after a pause.
    Continue,
}

/// One look of the wait: with both endpoints it is over; else it goes on
/// until more than the timeout has passed.
pub fn audio_wait_step(elapsed_secs: u64, has_output: bool, has_input: bool) -> (r: AudioWait)
    ensures
        r == (if has_output && has_input {
            AudioWait::Found
        } else if elapsed_secs > AUDIO_WAIT_TIMEOUT_SECS {
            AudioWait::GiveUp
        } else {
            AudioWait::Continue
        }),
{
    if has_output && has_input {
        AudioWait::Found
    } else if elapsed_secs > AUDIO_WAIT_TIMEOUT_SECS {
        AudioWait::GiveUp
    } else {
        AudioWait::Continue
    }
}

/// The position of the first device with the name `name`, from `i` on, or
/// the number of devices.
pub open spec fn named_position(devices: Seq<AudioDeviceView>, name: Seq<char>, i: int) -> int
    decreases devices.len() - i,
{
    if i < 0 || i >= devices.len() || devices[i].name == name {
        i
    } else {
        named_position(devices, name, i + 1)
    }
}

/// The devices once the one named `name` has become the default: it is
/// the default, and no other is.
pub open spec fn with_default(devices: Seq<AudioDeviceView>, name: Seq<char>) -> Seq<
    AudioDeviceView,
> {
    Seq::new(
        devices.len(),
        |i: int|
            AudioDeviceView { is_default: i == named_position(devices, name, 0), ..devices[i] },
    )
}

/// Makes the first device named `name` the default of a list, and no
/// other. Returns its position, if there is such a device.
pub fn make_default(devices: &mut Vec<AudioDevice>, name: &str) -> (r: Option<usize>)
    ensures
        device_views(final(devices)@) == with_default(device_views(old(devices)@), name@),
        final(devices)@.len() == old(devices)@.len(),
        match r {
            Some(at) => at < old(devices)@.len() && at == named_position(
                device_views(old(devices)@),
                name@,
                0,
            ),
            None => named_position(device_views(old(devices)@), name@, 0) >= old(devices)@.len(),
        },
{
    let ghost before = device_views(devices@);
    let mut found: Option<usize> = None;
    let mut i: usize = 0;
    let n = devices.len();
    while i < n
        invariant
            i <= n,
            n == devices.len(),
            before.len() == n,
            forall|j: int| i <= j < n ==> (#[trigger] devices@[j])@ == before[j],
            match found {
                Some(at) => at < i && at == named_position(before, name@, 0),
                None => named_position(before, name@, i as int) == named_position(before, name@, 0),
            },
            forall|j: int|
                0 <= j < i ==> (#[trigger] devices@[j])@ == (AudioDeviceView {
                    is_default: j == named_position(before, name@, 0),
                    ..before[j]
                }),
        decreases n - i,
    {
        assert(devices@[i as int]@ == before[i as int]);
        let here = found.is_none() && str_equal(devices[i].name.as_str(), name);
        if here {
            found = Some(i);
        }
        let old_device = devices[i].snapshot();
        let device = AudioDevice {
            id: old_device.id,
            name: old_device.name,
            description: old_device.description,
            is_default: here,
            pod_bytes: old_device.pod_bytes,
            volume: old_device.volume,
            is_muted: old_device.is_muted,
        };
        proof {
            if !here && found.is_none() {
                assert(named_position(before, name@, i as int) == named_position(
                    before,
                    name@,
                    i + 1,
                ));
                lemma_named_position_bounds(before, name@, i + 1);
            }
        }
        devices.set(i, device);
        i = i + 1;
    }
    assert(device_views(devices@) =~= with_default(before, name@));
    found
}

/// A position found from `i` on lies at or after `i`.
pub proof fn lemma_named_position_bounds(devices: Seq<AudioDeviceView>, name: Seq<char>, i: int)
    requires
        0 <= i <= devices.len(),
    ensures
        i <= named_position(devices, name, i) <= devices.len(),
    decreases devices.len() - i,
{
    if i < devices.len() && devices[i].name != name {
        lemma_named_position_bounds(devices, name, i + 1);
    }
}

/// The audio endpoints that are known, and which of them are the defaults.
pub struct AudioState {
    input_devices: Vec<AudioDevice>,
    output_devices: Vec<AudioDevice>,
    default_input_device: Option<u32>,
    default_output_device: Option<u32>,
}

impl AudioState {
    /// The input devices, in the order in which they appeared.
    pub closed spec fn inputs(&self) -> Seq<AudioDeviceView> {
        device_views(self.input_devices@)
    }

    /// The output devices, in the order in which they appeared.
    pub closed spec fn outputs(&self) -> Seq<AudioDeviceView> {
        device_views(self.output_devices@)
    }

    /// The id of the default input device, once one was named.
    pub closed spec fn default_input(&self) -> Option<u32> {
        self.default_input_device
    }

    /// The id of the default output device, once one was named.
    pub closed spec fn default_output(&self) -> Option<u32> {
        self.default_output_device
    }

    /// No endpoint known yet.
    pub fn new() -> (s: AudioState)
        ensures
            s.inputs().len() == 0,
            s.outputs().len() == 0,
            s.default_input().is_none(),
            s.default_output().is_none(),
    {
        AudioState {
            input_devices: Vec::new(),
            output_devices: Vec::new(),
            default_input_device: None,
            default_output_device: None,
        }
    }

    /// The input devices.
    pub fn get_input_devices(&self) -> (r: &Vec<AudioDevice>)
        ensures
            device_views(r@) == self.inputs(),
    {
        &self.input_devices
    }

    /// The output devices.
    pub fn get_output_devices(&self) -> (r: &Vec<AudioDevice>)
        ensures
            device_views(r@) == self.outputs(),
    {
        &self.output_devices
    }

    /// The id of the default input device.
    pub fn get_default_input_device(&self) -> (r: Option<u32>)
        ensures
            r == self.default_input(),
    {
        self.default_input_device
    }

    /// The id of the default output device.
    pub fn get_default_output_device(&self) -> (r: Option<u32>)
        ensures
            r == self.default_output(),
    {
        self.default_output_device
    }

    /// A node of the audio graph has appeared. Nodes that are neither
    /// sources nor sinks are passed over.
    pub fn node_added(&mut self, id: u32, class: &str, name: String, description: String) -> (r:
        Option<EndpointKind>)
        ensures
            r == endpoint_kind(class@),
            final(self).default_input() == old(self).default_input(),
            final(self).default_output() == old(self).default_output(),
            final(self).inputs() == (if r == Some(EndpointKind::Source) {
                with_device(old(self).inputs(), fresh_device(id, name@, description@))
            } else {
                old(self).inputs()
            }),
            final(self).outputs() == (if r == Some(EndpointKind::Sink) {
                with_device(old(self).outputs(), fresh_device(id, name@, description@))
            } else {
                old(self).outputs()
            }),
    {
        let kind = parse_endpoint_kind(class);
        let device = AudioDevice {
            id,
            name,
            description,
            is_default: false,
            pod_bytes: None,
            volume: 100,
            is_muted: false,
        };
        match kind {
            Some(EndpointKind::Source) => put_device(&mut self.input_devices, device),
            Some(EndpointKind::Sink) => put_device(&mut self.output_devices, device),
            None => {},
        }
        kind
    }

    /// A node of the audio graph is gone.
    pub fn node_removed(&mut self, id: u32)
        ensures
            final(self).inputs() == without_device(old(self).inputs(), id),
            final(self).outputs() == without_device(old(self).outputs(), id),
            final(self).default_input() == old(self).default_input(),
            final(self).default_output() == old(self).default_output(),
    {
        drop_device(&mut self.input_devices, id);
        drop_device(&mut self.output_devices, id);
    }

    /// The default of one kind has changed to the device named `name`.
    /// Returns the id of that device, if it is known; where it is not, no
    /// device of the kind is the default any more.
    pub fn default_changed(&mut self, kind: EndpointKind, name: &str) -> (r: Option<u32>)
        ensures
            final(self).inputs() == (if kind == EndpointKind::Source {
                with_default(old(self).inputs(), name@)
            } else {
                old(self).inputs()
            }),
            final(self).outputs() == (if kind == EndpointKind::Sink {
                with_default(old(self).outputs(), name@)
            } else {
                old(self).outputs()
            }),
            kind == EndpointKind::Source ==> final(self).default_output() == old(
                self,
            ).default_output() && (match r {
                Some(id) => final(self).default_input() == Some(id),
                None => final(self).default_input() == old(self).default_input(),
            }),
            kind == EndpointKind::Sink ==> final(self).default_input() == old(self).default_input()
                && (match r {
                Some(id) => final(self).default_output() == Some(id),
                None => final(self).default_output() == old(self).default_output(),
            }),
    {
        match kind {
            EndpointKind::Source => match make_default(&mut self.input_devices, name) {
                Some(at) => {
                    let id = self.input_devices[at].id;
                    self.default_input_device = Some(id);
                    Some(id)
                },
                None => None,
            },
            EndpointKind::Sink => match make_default(&mut self.output_devices, name) {
                Some(at) => {
                    let id = self.output_devices[at].id;
                    self.default_output_device = Some(id);
                    Some(id)
                },
                None => None,
            },
        }
    }
}

/// The devices once the one with the id `id` has a new volume: nothing
/// changes where no device has that id.
pub open spec fn with_volume(
    devices: Seq<AudioDeviceView>,
    id: u32,
    volume: u8,
    is_muted: bool,
    pod_bytes: Seq<u8>,
) -> Seq<AudioDeviceView> {
    let at = device_position(devices, id, 0);
    if at < devices.len() {
        devices.update(
            at,
            AudioDeviceView { volume, is_muted, pod_bytes: Some(pod_bytes), ..devices[at] },
        )
    } else {
        devices
    }
}

/// Sets the volume of the device with the id `id` in a list. Returns
/// whether the list has such a device.
pub fn set_volume(
    devices: &mut Vec<AudioDevice>,
    id: u32,
    volume: u8,
    is_muted: bool,
    pod_bytes: &Vec<u8>,
) -> (found: bool)
    ensures
        found == (device_position(device_views(old(devices)@), id, 0) < old(devices)@.len()),
        device_views(final(devices)@) == with_volume(
            device_views(old(devices)@),
            id,
            volume,
            is_muted,
            pod_bytes@,
        ),
{
    let at = find_device(devices, id);
    if at < devices.len() {
        let old_device = devices[at].snapshot();
        let device = AudioDevice {
            id: old_device.id,
            name: old_device.name,
            description: old_device.description,
            is_default: old_device.is_default,
            pod_bytes: Some(pod_bytes.clone()),
            volume,
            is_muted,
        };
        devices.set(at, device);
        assert(device_views(devices@) =~= with_volume(
            device_views(old(devices)@),
            id,
            volume,
            is_muted,
            pod_bytes@,
        ));
        true
    } else {
        false
    }
}

impl AudioState {
    /// The volume of a device has changed: an input device with the id is
    /// looked for first, then an output device. Returns the kind of the
    /// device that was changed, if one was.
    pub fn volume_changed(&mut self, id: u32, volume: u8, is_muted: bool, pod_bytes: &Vec<u8>) -> (r:
        Option<EndpointKind>)
        ensures
            final(self).default_input() == old(self).default_input(),
            final(self).default_output() == old(self).default_output(),
            final(self).inputs() == with_volume(old(self).inputs(), id, volume, is_muted, pod_bytes@),
            final(self).outputs() == (if device_position(old(self).inputs(), id, 0) < old(
                self,
            ).inputs().len() {
                old(self).outputs()
            } else {
                with_volume(old(self).outputs(), id, volume, is_muted, pod_bytes@)
            }),
            r == (if device_position(old(self).inputs(), id, 0) < old(self).inputs().len() {
                Some(EndpointKind::Source)
            } else if device_position(old(self).outputs(), id, 0) < old(self).outputs().len() {
                Some(EndpointKind::Sink)
            } else {
                None
            }),
    {
        if set_volume(&mut self.input_devices, id, volume, is_muted, pod_bytes) {
            Some(EndpointKind::Source)
        } else if set_volume(&mut self.output_devices, id, volume, is_muted, pod_bytes) {
            Some(EndpointKind::Sink)
        } else {
            None
        }
    }
}

} // verus!
