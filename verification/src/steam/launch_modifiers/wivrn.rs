//! What a game needs in its environment to find the WiVRn runtime.

use crate::env_map::set_all;
use crate::steam::launcher::{CommandPlan, CommandPlanView};
use vstd::prelude::*;

verus! {

/// The sockets of the runtime that the game's container has to reach, as
/// one text: three paths under the runtime directory, with `:` between.
pub open spec fn runtime_sockets(xdg_runtime_dir: Seq<char>) -> Seq<char> {
    xdg_runtime_dir + "/wivrn_comp_ipc"@ + ":"@ + xdg_runtime_dir + "/wivrn/comp_ipc"@ + ":"@
        + xdg_runtime_dir + "/monado_comp_ipc"@
}

/// The variables that make the runtime reachable from the game.
pub open spec fn runtime_variables(xdg_runtime_dir: Seq<char>) -> Seq<(Seq<char>, Seq<char>)> {
    seq![
        ("PRESSURE_VESSEL_IMPORT_OPENXR_1_RUNTIMES"@, "1"@),
        ("PRESSURE_VESSEL_FILESYSTEMS_RW"@, runtime_sockets(xdg_runtime_dir)),
    ]
}

/// Sets the runtime's variables in the command's environment.
pub fn apply_runtime_variables(command: &mut CommandPlan, xdg_runtime_dir: &str)
    ensures
        final(command)@ == (CommandPlanView {
            envs: set_all(old(command)@.envs, runtime_variables(xdg_runtime_dir@)),
            ..old(command)@
        }),
{
    let mut sockets = xdg_runtime_dir.to_owned();
    sockets.append("/wivrn_comp_ipc");
    sockets.append(":");
    sockets.append(xdg_runtime_dir);
    sockets.append("/wivrn/comp_ipc");
    sockets.append(":");
    sockets.append(xdg_runtime_dir);
    sockets.append("/monado_comp_ipc");
    let ghost before = command.envs@;
    command.envs.insert("PRESSURE_VESSEL_IMPORT_OPENXR_1_RUNTIMES".to_owned(), "1".to_owned());
    command.envs.insert("PRESSURE_VESSEL_FILESYSTEMS_RW".to_owned(), sockets);
    proof {
        let vars = runtime_variables(xdg_runtime_dir@);
        assert(vars.drop_last() =~= seq![("PRESSURE_VESSEL_IMPORT_OPENXR_1_RUNTIMES"@, "1"@)]);
        assert(vars.drop_last().drop_last() =~= Seq::<(Seq<char>, Seq<char>)>::empty());
        assert(set_all(before, vars.drop_last().drop_last()) == before);
        assert(set_all(before, vars.drop_last()) == before.insert(
            "PRESSURE_VESSEL_IMPORT_OPENXR_1_RUNTIMES"@,
            "1"@,
        ));
    }
}

/// Makes the WiVRn runtime reachable from the game.
#[derive(Debug)]
pub struct WiVRnLaunchModifier {}

impl WiVRnLaunchModifier {
    pub fn new() -> WiVRnLaunchModifier {
        WiVRnLaunchModifier {  }
    }

    /// Sets the runtime's variables in the command's environment.
    /// `xdg_runtime_dir` is the runtime directory of the user.
    pub fn apply(&self, command: &mut CommandPlan, xdg_runtime_dir: &str)
        ensures
            final(command)@ == (CommandPlanView {
                envs: set_all(old(command)@.envs, runtime_variables(xdg_runtime_dir@)),
                ..old(command)@
            }),
    {
        apply_runtime_variables(command, xdg_runtime_dir);
    }
}

} // verus!
