//! The state of the backend process and what is decided on it.

use crate::adb::adb_device::AdbVrDevice;
use crate::app_state::LaunchError;
use crate::audio_api::AudioDevice;
use crate::backends::BackendStartInfo;
use crate::text::{chars_of, contains_exec, contains_text, lowercase};
use vstd::prelude::*;

verus! {

/// What a look at a started process shows.
#[derive(Debug, Clone, Copy, PartialEq, Eq, Structural)]
pub enum ProcessProbe {
    /// The process runs.
    Running,
    /// The process has ended.
    Exited,
    /// The look itself failed.
    Failed,
}

/// The port through which the headset reaches the backend.
pub const WIVRN_PORT: u32 = 9757;

/// The seconds after which a started backend is looked at again.
pub const START_GRACE_SECS: u64 = 2;

/// What is to be done to start the backend.
#[derive(Debug, Clone, Copy, PartialEq, Eq, Structural)]
pub enum StartPlan {
    /// Processes left over under the backend's name are killed, the binary
    /// is started, and after the grace period the process is looked at.
    Spawn,
    /// The process that runs is kept.
    Reuse,
}

/// Why the backend could not be started.
#[derive(Debug, PartialEq, Eq)]
pub enum BackendError {
    /// The process ended within the grace period; the last line that it
    /// wrote to its error stream is kept, if it wrote one.
    StartFailed { last_error_line: Option<String> },
    /// No headset is known.
    NoActiveDevice,
}

impl BackendError {
    /// The error of the launch that this error ends.
    pub fn launch_error(self) -> (r: LaunchError)
        ensures
            match self {
                BackendError::StartFailed { last_error_line: Some(line) } => r
                    == LaunchError::BackendStartFailed(line),
                BackendError::StartFailed { last_error_line: None } => r matches LaunchError::BackendStartFailed(
                    line,
                ) && line@ == "Unknown error"@,
                BackendError::NoActiveDevice => r == LaunchError::DeviceUnreachable,
            },
    {
        match self {
            BackendError::StartFailed { last_error_line: Some(line) } => LaunchError::BackendStartFailed(
                line,
            ),
            BackendError::StartFailed { last_error_line: None } => LaunchError::BackendStartFailed(
                "Unknown error".to_owned(),
            ),
            BackendError::NoActiveDevice => LaunchError::DeviceUnreachable,
        }
    }
}

/// What the headset is asked to do on a reconnect.
#[derive(Debug, Clone, Copy, PartialEq, Eq, Structural)]
pub enum DeviceCommand {
    /// Forward this port of the headset to the same port here.
    OpenTcpTunnel(u32),
    /// Open the companion app with the backend's address.
    StartClient,
}

/// The WiVRn backend: the path of its binary, and whether a process of it
/// was started and not stopped since.
pub struct WiVRnBackend {
    server_binary_path: String,
    server_process: Option<u32>,
}

/// Whether a new process is needed: none was started, or the one that was
/// has ended. A process that cannot be looked at is kept.
pub open spec fn needs_new_process(handle: Option<u32>, probe: ProcessProbe) -> bool {
    handle.is_none() || probe == ProcessProbe::Exited
}

/// The steps of a reconnect: none before a process was ever started; else
/// the tunnel is opened and the companion app started.
pub open spec fn reconnect_steps(handle: Option<u32>) -> Seq<DeviceCommand> {
    if handle.is_none() {
        Seq::<DeviceCommand>::empty()
    } else {
        seq![DeviceCommand::OpenTcpTunnel(WIVRN_PORT), DeviceCommand::StartClient]
    }
}

/// Whether an audio endpoint is one of the backend's: its description
/// names the backend, in any case of the letters.
pub open spec fn names_wivrn(description: Seq<char>) -> bool {
    contains_text(lowercase(description), "wivrn"@)
}

impl WiVRnBackend {
    /// The process id of the started process, if there is one.
    pub closed spec fn handle(&self) -> Option<u32> {
        self.server_process
    }

    /// The path of the backend's binary.
    pub closed spec fn binary(&self) -> Seq<char> {
        self.server_binary_path@
    }

    /// A backend whose binary is at `server_binary_path`; no process yet.
    pub fn new(server_binary_path: String) -> (b: WiVRnBackend)
        ensures
            b.handle().is_none(),
            b.binary() == server_binary_path@,
    {
        WiVRnBackend { server_binary_path, server_process: None }
    }

    /// The path of the backend's binary.
    pub fn server_binary_path(&self) -> (p: &String)
        ensures
            p@ == self.binary(),
    {
        &self.server_binary_path
    }

    /// Whether a process was started and not stopped since.
    pub fn has_process(&self) -> (r: bool)
        ensures
            r == self.handle().is_some(),
    {
        self.server_process.is_some()
    }

    /// Decides how the backend is started. `probe` is what a look at the
    /// started process showed; it is not looked at where none was started.
    pub fn start_async(&self, probe: ProcessProbe) -> (plan: StartPlan)
        ensures
            plan == (if needs_new_process(self.handle(), probe) {
                StartPlan::Spawn
            } else {
                StartPlan::Reuse
            }),
    {
        if self.server_process.is_none() {
            StartPlan::Spawn
        } else {
            match probe {
                ProcessProbe::Exited => StartPlan::Spawn,
                _ => StartPlan::Reuse,
            }
        }
    }

    /// The process was started under the id `pid`.
    pub fn server_spawned(&mut self, pid: u32)
        ensures
            final(self).handle() == Some(pid),
            final(self).binary() == old(self).binary(),
    {
        self.server_process = Some(pid);
    }

    /// The grace period is over: a process that has ended by now failed to
    /// start, and the last line of its error stream says why.
    pub fn grace_elapsed(&self, probe: ProcessProbe, last_error_line: Option<String>) -> (r: Result<
        (),
        BackendError,
    >)
        ensures
            r == (if probe == ProcessProbe::Exited {
                Err::<(), BackendError>(BackendError::StartFailed { last_error_line })
            } else {
                Ok::<(), BackendError>(())
            }),
    {
        match probe {
            ProcessProbe::Exited => Err(BackendError::StartFailed { last_error_line }),
            _ => Ok(()),
        }
    }

    /// The steps of a reconnect. They may be taken any number of times.
    pub fn reconnect_async(&self) -> (steps: Vec<DeviceCommand>)
        ensures
            steps@ == reconnect_steps(self.handle()),
    {
        let mut steps: Vec<DeviceCommand> = Vec::new();
        if self.server_process.is_some() {
            steps.push(DeviceCommand::OpenTcpTunnel(WIVRN_PORT));
            steps.push(DeviceCommand::StartClient);
        }
        assert(steps@ =~= reconnect_steps(self.handle()));
        steps
    }

    /// What a start reports once the reconnect is done: the identity of the
    /// current headset, and whether the process was started anew, which it
    /// was where the plan was to spawn it.
    pub fn finish_start(&self, device: Option<AdbVrDevice>, plan: StartPlan) -> (r: Result<
        BackendStartInfo,
        BackendError,
    >)
        ensures
            r == (match device {
                Some(d) => Ok::<BackendStartInfo, BackendError>(
                    BackendStartInfo {
                        vr_device_serial: d.usb_serial,
                        vr_device_ip: d.ip_address,
                        was_restarted: plan == StartPlan::Spawn,
                    },
                ),
                None => Err::<BackendStartInfo, BackendError>(BackendError::NoActiveDevice),
            }),
    {
        match device {
            Some(d) => Ok(
                BackendStartInfo {
                    vr_device_serial: d.usb_serial,
                    vr_device_ip: d.ip_address,
                    was_restarted: plan == StartPlan::Spawn,
                },
            ),
            None => Err(BackendError::NoActiveDevice),
        }
    }

    /// Stops the backend: the process, if there is one, is to be killed.
    /// Returns its id. Stopping twice does nothing the second time.
    pub fn stop(&mut self) -> (killed: Option<u32>)
        ensures
            killed == old(self).handle(),
            final(self).handle().is_none(),
            final(self).binary() == old(self).binary(),
    {
        self.server_process.take()
    }

    /// Whether an audio endpoint is one of the backend's.
    pub fn is_matching_audio_device(&self, device: &AudioDevice) -> (r: bool)
        ensures
            r == names_wivrn(device.description@),
    {
        let lower = device.description.as_str().to_lowercase();
        let chars = chars_of(lower.as_str());
        let name = chars_of("wivrn");
        contains_exec(&chars, &name)
    }

    /// The arguments with which the binary is started.
    pub fn server_arguments() -> (args: Vec<String>)
        ensures
            args@.len() == 1,
            args@[0]@ == "--early-active-runtime"@,
    {
        let mut args: Vec<String> = Vec::new();
        args.push("--early-active-runtime".to_owned());
        args
    }

    /// The name under which left-over processes of the backend are found.
    pub fn process_name() -> (name: String)
        ensures
            name@ == "wivrn-server"@,
    {
        "wivrn-server".to_owned()
    }
}

/// What a start reports of a restart, for a backend with the process
/// `handle` that was looked at with the result `probe`.
pub open spec fn reports_restart(handle: Option<u32>, probe: ProcessProbe) -> bool {
    let plan = if needs_new_process(handle, probe) {
        StartPlan::Spawn
    } else {
        StartPlan::Reuse
    };
    plan == StartPlan::Spawn
}

/// A backend without a process, or with one that has ended, is started
/// anew by the next start, and reports so; one whose process runs is kept,
/// and reports that it was not restarted.
pub proof fn law_restart_decision(handle: Option<u32>, probe: ProcessProbe)
    ensures
        (handle.is_none() || probe == ProcessProbe::Exited) ==> reports_restart(handle, probe),
        (handle.is_some() && probe == ProcessProbe::Running) ==> !reports_restart(handle, probe),
{
}

} // verus!
