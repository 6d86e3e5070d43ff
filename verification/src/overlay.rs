//! The overlay that is shown in the headset while a game runs.

use vstd::prelude::*;

verus! {

/// The milliseconds after which a started overlay is looked at again.
pub const OVERLAY_GRACE_MILLIS: u64 = 500;

/// What is to be done to start the overlay.
#[derive(Debug, Clone, Copy, PartialEq, Eq, Structural)]
pub struct OverlayStart {
    /// The process that is to be killed before the new one is started.
    pub kill_first: Option<u32>,
}

/// The overlay: whether a process of it was started and not stopped since.
pub struct WlxOverlayManager {
    overlay_process: Option<u32>,
}

impl WlxOverlayManager {
    /// The process id of the started process, if there is one.
    pub closed spec fn handle(&self) -> Option<u32> {
        self.overlay_process
    }

    pub fn new() -> (m: WlxOverlayManager)
        ensures
            m.handle().is_none(),
    {
        WlxOverlayManager { overlay_process: None }
    }

    /// The name of the overlay's binary.
    pub fn binary() -> (name: String)
        ensures
            name@ == "wlx-overlay-s"@,
    {
        "wlx-overlay-s".to_owned()
    }

    /// The arguments with which the binary is started.
    pub fn arguments() -> (args: Vec<String>)
        ensures
            args@.len() == 2,
            args@[0]@ == "--replace"@,
            args@[1]@ == "--openxr"@,
    {
        let mut args: Vec<String> = Vec::new();
        args.push("--replace".to_owned());
        args.push("--openxr".to_owned());
        args
    }

    /// Begins a start: a process that was started before is to be killed
    /// first.
    pub fn start(&self) -> (plan: OverlayStart)
        ensures
            plan.kill_first == self.handle(),
    {
        OverlayStart { kill_first: self.overlay_process }
    }

    /// The process was started under the id `pid`. After the grace period
    /// the caller looks at it: a process that has ended by then failed to
    /// start.
    pub fn started(&mut self, pid: u32)
        ensures
            final(self).handle() == Some(pid),
    {
        self.overlay_process = Some(pid);
    }

    /// Stops the overlay: the process, if there is one, is to be asked to
    /// end, and waited for. Stopping twice does nothing the second time.
    pub fn stop(&mut self) -> (terminate: Option<u32>)
        ensures
            terminate == old(self).handle(),
            final(self).handle().is_none(),
    {
        self.overlay_process.take()
    }
}

} // verus!
