//! What an Envision profile adds to the command of a game.

use crate::backends::wivrn::wivrn_launch_modifier::{
    activation_steps, active_runtime_link, WiVRnLaunchModifier,
};
use crate::env_map::set_all;
use crate::paths::{join_path, path_join, path_parent};
use crate::steam::launch_modifiers::wivrn::runtime_variables;
use crate::steam::launcher::{CommandPlan, CommandPlanView};
use vstd::prelude::*;

verus! {

/// Where the manifest of the runtime is, below the prefix of a profile.
pub open spec fn profile_manifest(prefix: Seq<char>) -> Seq<char> {
    path_join(prefix, "share/openxr/1/openxr_wivrn.json"@)
}

/// Makes the runtime of an Envision profile the one that the game finds.
#[derive(Debug)]
pub struct EnvisionLaunchModifier {
    prefix: String,
}

impl EnvisionLaunchModifier {
    /// The prefix of the profile.
    pub closed spec fn prefix(&self) -> Seq<char> {
        self.prefix@
    }

    /// The modifier for the profile with the prefix `prefix`.
    pub fn new(prefix: String) -> (m: EnvisionLaunchModifier)
        ensures
            m.prefix() == prefix@,
    {
        EnvisionLaunchModifier { prefix }
    }

    /// Sets the runtime's variables, and adds the steps that link the
    /// profile's manifest as the active runtime below `home_dir`. Nothing
    /// is changed where the link's path has no parent.
    pub fn apply(&self, command: &mut CommandPlan, xdg_runtime_dir: &str, home_dir: &str) -> (done:
        bool)
        ensures
            done == path_parent(active_runtime_link(home_dir@)).is_some(),
            !done ==> final(command)@ == old(command)@,
            done ==> final(command)@ == (CommandPlanView {
                envs: set_all(old(command)@.envs, runtime_variables(xdg_runtime_dir@)),
                fs_steps: old(command)@.fs_steps + activation_steps(
                    profile_manifest(self.prefix()),
                    home_dir@,
                ),
                ..old(command)@
            }),
    {
        let manifest = join_path(self.prefix.as_str(), "share/openxr/1/openxr_wivrn.json");
        let modifier = WiVRnLaunchModifier::new(manifest);
        modifier.apply(command, xdg_runtime_dir, home_dir)
    }
}

} // verus!
