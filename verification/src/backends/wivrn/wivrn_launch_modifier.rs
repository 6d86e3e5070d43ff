//! What the backend adds to the command of a game: its variables, and the
//! link that makes it the active OpenXR runtime.

use crate::env_map::set_all;
use crate::paths::{join_path, parent_of, path_join, path_parent};
use crate::steam::launch_modifiers::wivrn::{apply_runtime_variables, runtime_variables};
use crate::steam::launcher::{step_views, CommandPlan, CommandPlanView, FsStep, FsStepView};
use vstd::prelude::*;

verus! {

/// Where the active runtime's manifest is linked, below the home directory.
pub open spec fn active_runtime_link(home: Seq<char>) -> Seq<char> {
    path_join(home, ".config/openxr/1/active_runtime.json"@)
}

/// The steps that make `manifest` the active runtime: the directory of the
/// link is made, and the link put in place of what is there.
pub open spec fn activation_steps(manifest: Seq<char>, home: Seq<char>) -> Seq<FsStepView> {
    seq![
        FsStepView::CreateDirAll(path_parent(active_runtime_link(home)).unwrap()),
        FsStepView::ReplaceSymlink { target: manifest, link: active_runtime_link(home) },
    ]
}

/// Makes the backend's runtime the one that the game finds.
#[derive(Debug)]
pub struct WiVRnLaunchModifier {
    manifest_path: String,
}

impl WiVRnLaunchModifier {
    /// The path of the runtime's manifest.
    pub closed spec fn manifest(&self) -> Seq<char> {
        self.manifest_path@
    }

    pub fn new(manifest_path: String) -> (m: WiVRnLaunchModifier)
        ensures
            m.manifest() == manifest_path@,
    {
        WiVRnLaunchModifier { manifest_path }
    }

    /// Sets the runtime's variables in the command's environment.
    pub fn apply_env_vars(&self, command: &mut CommandPlan, xdg_runtime_dir: &str)
        ensures
            final(command)@ == (CommandPlanView {
                envs: set_all(old(command)@.envs, runtime_variables(xdg_runtime_dir@)),
                ..old(command)@
            }),
    {
        apply_runtime_variables(command, xdg_runtime_dir);
    }

    /// Sets the runtime's variables, and adds the steps that link the
    /// manifest as the active runtime below `home_dir`. Nothing is changed
    /// where the link's path has no parent.
    pub fn apply(&self, command: &mut CommandPlan, xdg_runtime_dir: &str, home_dir: &str) -> (done:
        bool)
        ensures
            done == path_parent(active_runtime_link(home_dir@)).is_some(),
            !done ==> final(command)@ == old(command)@,
            done ==> final(command)@ == (CommandPlanView {
                envs: set_all(old(command)@.envs, runtime_variables(xdg_runtime_dir@)),
                fs_steps: old(command)@.fs_steps + activation_steps(self.manifest(), home_dir@),
                ..old(command)@
            }),
    {
        let link = join_path(home_dir, ".config/openxr/1/active_runtime.json");
        let directory = match parent_of(link.as_str()) {
            Some(d) => d,
            None => {
                return false;
            },
        };
        apply_runtime_variables(command, xdg_runtime_dir);
        let ghost before = step_views(command.fs_steps@);
        command.fs_steps.push(FsStep::CreateDirAll(directory));
        command.fs_steps.push(
            FsStep::ReplaceSymlink { target: self.manifest_path.clone(), link },
        );
        assert(step_views(command.fs_steps@) =~= before + activation_steps(
            self.manifest(),
            home_dir@,
        ));
        true
    }
}

/// The places where the runtime's manifest is looked for, in order: beside
/// a development build, in an installation prefix, and in the system.
/// `root` is the directory two levels above the server binary.
pub open spec fn manifest_candidates(root: Seq<char>) -> Seq<Seq<char>> {
    seq![
        path_join(root, "openxr_wivrn-dev.json"@),
        path_join(root, "share/openxr/1/openxr_wivrn.json"@),
        "/usr/share/openxr/1/openxr_wivrn.json"@,
    ]
}

/// The directory two levels above a path, where the path has that many.
pub open spec fn grandparent(path: Seq<char>) -> Option<Seq<char>> {
    match path_parent(path) {
        Some(p) => path_parent(p),
        None => None,
    }
}

/// The places where the manifest of the server at `server_path` is looked
/// for, or `None` where the path has no directory two levels above it.
pub fn locate_wivrn_manifest(server_path: &str) -> (r: Option<Vec<String>>)
    ensures
        match r {
            Some(c) => grandparent(server_path@).is_some() && crate::text::texts(c@)
                == manifest_candidates(grandparent(server_path@).unwrap()),
            None => grandparent(server_path@).is_none(),
        },
{
    let parent = match parent_of(server_path) {
        Some(p) => p,
        None => {
            return None;
        },
    };
    let root = match parent_of(parent.as_str()) {
        Some(p) => p,
        None => {
            return None;
        },
    };
    let mut candidates: Vec<String> = Vec::new();
    candidates.push(join_path(root.as_str(), "openxr_wivrn-dev.json"));
    candidates.push(join_path(root.as_str(), "share/openxr/1/openxr_wivrn.json"));
    candidates.push("/usr/share/openxr/1/openxr_wivrn.json".to_owned());
    assert(crate::text::texts(candidates@) =~= manifest_candidates(grandparent(server_path@).unwrap()));
    Some(candidates)
}

/// The position of the first path that exists, from `i` on, or the number
/// of paths.
pub open spec fn first_existing(exists: Seq<bool>, i: int) -> int
    decreases exists.len() - i,
{
    if i < 0 || i >= exists.len() || exists[i] {
        i
    } else {
        first_existing(exists, i + 1)
    }
}

/// The first of `candidates` that exists. `exists` says of each whether it
/// does.
pub fn choose_existing(candidates: Vec<String>, exists: &Vec<bool>) -> (r: Option<String>)
    requires
        candidates.len() == exists.len(),
    ensures
        r == (if first_existing(exists@, 0) < exists@.len() {
            Some(candidates@[first_existing(exists@, 0)])
        } else {
            None
        }),
{
    let mut rest = candidates;
    let mut i: usize = 0;
    while i < exists.len()
        invariant
            i <= exists.len(),
            rest@ == candidates@,
            candidates@.len() == exists@.len(),
            first_existing(exists@, i as int) == first_existing(exists@, 0),
        decreases exists.len() - i,
    {
        if exists[i] {
            return Some(rest.remove(i));
        }
        i = i + 1;
    }
    None
}

/// The path of the server binary: the one given, where it is a file that
/// exists; else the one found on the search path; else none.
pub fn locate_server_binary_path(
    given: Option<String>,
    given_is_file: bool,
    on_search_path: Option<String>,
) -> (r: Option<String>)
    ensures
        r == (if given.is_some() && given_is_file {
            given
        } else {
            on_search_path
        }),
{
    if given.is_some() && given_is_file {
        given
    } else {
        on_search_path
    }
}

/// The socket whose presence tells that the runtime is ready.
pub open spec fn ready_marker(xdg_runtime_dir: Seq<char>) -> Seq<char> {
    xdg_runtime_dir + "/wivrn/comp_ipc"@
}

/// The path of the socket whose presence tells that the runtime is ready.
pub fn ready_marker_path(xdg_runtime_dir: &str) -> (r: String)
    ensures
        r@ == ready_marker(xdg_runtime_dir@),
{
    let mut r = xdg_runtime_dir.to_owned();
    r.append("/wivrn/comp_ipc");
    r
}

} // verus!
