//! Starting a game through a compatibility tool: what is checked before,
//! the command that is run, and how the process is found again.

use crate::app_state::LaunchError;
use crate::env_map::EnvMap;
use crate::steam::steam_interface::{ProtonVersion, SteamApp};
use crate::text::{
    chars_of, is_text, lemma_texts_push, split_once, split_once_exec, str_equal, string_of, texts,
};
use crate::paths::{join_path, path_join};
use vstd::prelude::*;

verus! {

/// A started game process: its id, and the session token that was put into
/// its environment.
#[derive(Debug)]
pub struct ProcessHandle {
    pid: u32,
    process_token: String,
}

impl ProcessHandle {
    /// The process id under which the process was started.
    pub closed spec fn pid(&self) -> u32 {
        self.pid
    }

    /// The session token of the process.
    pub closed spec fn token(&self) -> Seq<char> {
        self.process_token@
    }

    /// The session token of the process, as the string that holds it.
    pub closed spec fn token_string(&self) -> String {
        self.process_token
    }

    /// A handle for a process started with `pid` and `process_token`.
    pub fn new(pid: u32, process_token: String) -> (h: ProcessHandle)
        ensures
            h.pid() == pid,
            h.token() == process_token@,
            h.token_string() == process_token,
    {
        ProcessHandle { pid, process_token }
    }

    /// The session token of the process.
    pub fn get_process_token(&self) -> (t: &String)
        ensures
            t@ == self.token(),
            *t == self.token_string(),
    {
        &self.process_token
    }

    /// The process id under which the process was started.
    pub fn get_pid(&self) -> (p: u32)
        ensures
            p == self.pid(),
    {
        self.pid
    }

    /// A handle that stands for no process: its id is 0 and its token is
    /// fresh, a session token as every launch draws one.
    pub fn null() -> (h: ProcessHandle)
        ensures
            h.pid() == 0,
            is_session_token(h.token()),
    {
        ProcessHandle { pid: 0, process_token: new_session_token() }
    }
}

/// Makes a session token: `Uuid::new_v4`, printed by `to_string`. Which
/// token comes is chance, and two calls give two tokens; what is claimed is
/// the form in which every random UUID is printed.
#[verifier::external_body]
fn new_session_token() -> (token: String)
    ensures
        is_session_token(token@),
{
    uuid::Uuid::new_v4().to_string()
}

/// A digit of hexadecimal, the letters in lower case.
pub open spec fn is_lower_hex(c: char) -> bool {
    48 <= c as u32 <= 57 || 97 <= c as u32 <= 102
}

/// Whether a hyphen stands at position `i` of a session token.
pub open spec fn is_token_hyphen(i: int) -> bool {
    i == 8 || i == 13 || i == 18 || i == 23
}

/// The form of a session token: the 36 characters of a random UUID, which
/// are lower-case hexadecimal digits in groups of 8, 4, 4, 4 and 12 with a
/// hyphen between two groups. The third group begins with the version, 4,
/// and the fourth with the variant, one of `8`, `9`, `a` and `b`.
pub open spec fn is_session_token(t: Seq<char>) -> bool {
    &&& t.len() == 36
    &&& forall|i: int|
        0 <= i < 36 ==> if is_token_hyphen(i) {
            #[trigger] t[i] == '-'
        } else {
            is_lower_hex(t[i])
        }
    &&& t[14] == '4'
    &&& (t[19] == '8' || t[19] == '9' || t[19] == 'a' || t[19] == 'b')
}

/// The name of the variable that carries the session token.
pub open spec fn token_variable() -> Seq<char> {
    "SVRL_TOKEN"@
}

/// A step on the file system that belongs to a launch.
#[derive(Debug, PartialEq, Eq)]
pub enum FsStep {
    /// Create the directory and all of its parents.
    CreateDirAll(String),
    /// Put a symbolic link to `target` at `link`, in place of what is
    /// there.
    ReplaceSymlink { target: String, link: String },
}

/// What a file-system step holds.
pub enum FsStepView {
    CreateDirAll(Seq<char>),
    ReplaceSymlink { target: Seq<char>, link: Seq<char> },
}

impl View for FsStep {
    type V = FsStepView;

    open spec fn view(&self) -> FsStepView {
        match self {
            FsStep::CreateDirAll(p) => FsStepView::CreateDirAll(p@),
            FsStep::ReplaceSymlink { target, link } => FsStepView::ReplaceSymlink {
                target: target@,
                link: link@,
            },
        }
    }
}

/// The views of a list of file-system steps.
pub open spec fn step_views(steps: Seq<FsStep>) -> Seq<FsStepView> {
    steps.map_values(|s: FsStep| s@)
}

/// The command that starts a game, and the steps to take before it runs.
#[derive(Debug)]
pub struct CommandPlan {
    pub program: String,
    pub args: Vec<String>,
    pub envs: EnvMap,
    pub current_dir: String,
    pub fs_steps: Vec<FsStep>,
}

/// What a `CommandPlan` holds.
pub struct CommandPlanView {
    pub program: Seq<char>,
    pub args: Seq<Seq<char>>,
    pub envs: Map<Seq<char>, Seq<char>>,
    pub current_dir: Seq<char>,
    pub fs_steps: Seq<FsStepView>,
}

impl View for CommandPlan {
    type V = CommandPlanView;

    open spec fn view(&self) -> CommandPlanView {
        CommandPlanView {
            program: self.program@,
            args: texts(self.args@),
            envs: self.envs@,
            current_dir: self.current_dir@,
            fs_steps: step_views(self.fs_steps@),
        }
    }
}

/// Which of the paths that a launch needs exist.
#[derive(Debug, Clone, Copy, PartialEq, Eq, Structural)]
pub struct PathChecks {
    pub working_directory: bool,
    pub app_folder: bool,
    pub executable: bool,
    pub compat_tool: bool,
}

/// The path that a launch lacks.
#[derive(Debug, Clone, Copy, PartialEq, Eq, Structural)]
pub enum PreflightError {
    WorkingDirectoryMissing,
    InstallDirectoryMissing,
    ExecutableMissing,
    CompatToolMissing,
}

/// The first of the needed paths that does not exist, if one does not.
pub open spec fn preflight_failure(checks: PathChecks) -> Option<PreflightError> {
    if !checks.working_directory {
        Some(PreflightError::WorkingDirectoryMissing)
    } else if !checks.app_folder {
        Some(PreflightError::InstallDirectoryMissing)
    } else if !checks.executable {
        Some(PreflightError::ExecutableMissing)
    } else if !checks.compat_tool {
        Some(PreflightError::CompatToolMissing)
    } else {
        None
    }
}

impl PreflightError {
    /// The message of the error.
    pub open spec fn message_text(self) -> Seq<char> {
        match self {
            PreflightError::WorkingDirectoryMissing => "The specified working directory does not exist."@,
            PreflightError::InstallDirectoryMissing => "The specified installation directory does not exist."@,
            PreflightError::ExecutableMissing => "The specified app executable does not exist."@,
            PreflightError::CompatToolMissing => "The specified compat tool's path does not exist."@,
        }
    }

    /// The message of the error.
    pub fn message(&self) -> (m: String)
        ensures
            m@ == self.message_text(),
    {
        match self {
            PreflightError::WorkingDirectoryMissing => "The specified working directory does not exist.".to_owned(),
            PreflightError::InstallDirectoryMissing => "The specified installation directory does not exist.".to_owned(),
            PreflightError::ExecutableMissing => "The specified app executable does not exist.".to_owned(),
            PreflightError::CompatToolMissing => "The specified compat tool's path does not exist.".to_owned(),
        }
    }
}

impl PreflightError {
    /// The error of the launch that this error ends: a path is missing.
    pub fn launch_error(&self) -> (r: LaunchError)
        ensures
            r matches LaunchError::PreflightPathMissing(m) && m@ == self.message_text(),
    {
        LaunchError::PreflightPathMissing(self.message())
    }
}

/// The command before any modifier: the compatibility tool is run by
/// `python3` with `run`, the executable and its arguments, in the
/// application's working directory; the variable `_` names the tool, and
/// the session token is in the environment.
pub open spec fn base_command(
    app: SteamApp,
    compat_version: ProtonVersion,
    token: Seq<char>,
) -> CommandPlanView {
    CommandPlanView {
        program: "python3"@,
        args: seq![compat_version.executable_path@, "run"@, app.executable@] + texts(
            app.arguments@,
        ),
        envs: Map::<Seq<char>, Seq<char>>::empty().insert("_"@, compat_version.executable_path@).insert(
            token_variable(),
            token,
        ),
        current_dir: app.working_directory@,
        fs_steps: Seq::<FsStepView>::empty(),
    }
}

/// The launcher of games.
pub struct CompatLauncher {}

impl CompatLauncher {
    pub fn new() -> CompatLauncher {
        CompatLauncher {  }
    }

    /// The paths that have to exist for a launch, in the order in which
    /// they are checked: the working directory, the installation directory,
    /// the executable in it, and the compatibility tool.
    pub fn preflight_paths(&self, app: &SteamApp, compat_version: &ProtonVersion) -> (paths: Vec<
        String,
    >)
        ensures
            texts(paths@) == seq![
                app.working_directory@,
                app.app_folder@,
                path_join(app.app_folder@, app.executable@),
                compat_version.executable_path@,
            ],
    {
        let mut paths: Vec<String> = Vec::new();
        paths.push(app.working_directory.clone());
        paths.push(app.app_folder.clone());
        paths.push(join_path(app.app_folder.as_str(), app.executable.as_str()));
        paths.push(compat_version.executable_path.clone());
        assert(texts(paths@) =~= seq![
            app.working_directory@,
            app.app_folder@,
            path_join(app.app_folder@, app.executable@),
            compat_version.executable_path@,
        ]);
        paths
    }

    /// Checks the paths of a launch before anything is started.
    pub fn preflight(&self, checks: PathChecks) -> (r: Result<(), PreflightError>)
        ensures
            r == (match preflight_failure(checks) {
                Some(e) => Err::<(), PreflightError>(e),
                None => Ok::<(), PreflightError>(()),
            }),
    {
        if !checks.working_directory {
            Err(PreflightError::WorkingDirectoryMissing)
        } else if !checks.app_folder {
            Err(PreflightError::InstallDirectoryMissing)
        } else if !checks.executable {
            Err(PreflightError::ExecutableMissing)
        } else if !checks.compat_tool {
            Err(PreflightError::CompatToolMissing)
        } else {
            Ok(())
        }
    }

    /// The command of a launch with the session token `token`, before any
    /// modifier.
    pub fn command_for(&self, app: &SteamApp, compat_version: &ProtonVersion, token: &str) -> (plan:
        CommandPlan)
        ensures
            plan@ == base_command(*app, *compat_version, token@),
    {
        let mut args: Vec<String> = Vec::new();
        args.push(compat_version.executable_path.clone());
        args.push("run".to_owned());
        args.push(app.executable.clone());
        let mut i: usize = 0;
        assert(texts(args@) =~= seq![compat_version.executable_path@, "run"@, app.executable@]
            + texts(app.arguments@).take(0));
        while i < app.arguments.len()
            invariant
                i <= app.arguments.len(),
                texts(args@) == seq![compat_version.executable_path@, "run"@, app.executable@]
                    + texts(app.arguments@).take(i as int),
            decreases app.arguments.len() - i,
        {
            let a = app.arguments[i].clone();
            proof {
                lemma_texts_push(args@, a);
                assert(texts(app.arguments@).take(i + 1) =~= texts(app.arguments@).take(
                    i as int,
                ).push(a@));
                assert(texts(args@).push(a@) =~= seq![
                    compat_version.executable_path@,
                    "run"@,
                    app.executable@,
                ] + texts(app.arguments@).take(i + 1));
            }
            args.push(a);
            i = i + 1;
        }
        assert(texts(app.arguments@).take(i as int) =~= texts(app.arguments@));
        let mut envs = EnvMap::new();
        envs.insert("_".to_owned(), compat_version.executable_path.clone());
        envs.insert("SVRL_TOKEN".to_owned(), token.to_owned());
        let plan = CommandPlan {
            program: "python3".to_owned(),
            args,
            envs,
            current_dir: app.working_directory.clone(),
            fs_steps: Vec::new(),
        };
        assert(plan@.fs_steps =~= Seq::<FsStepView>::empty());
        plan
    }

    /// Prepares a launch: the paths are checked, and where all exist, a
    /// session token is made and the command built with it. Nothing is
    /// started where a path is missing.
    pub fn launch_app_compat(
        &self,
        app: &SteamApp,
        compat_version: &ProtonVersion,
        checks: PathChecks,
    ) -> (r: Result<(CommandPlan, String), PreflightError>)
        ensures
            match r {
                Ok(started) => preflight_failure(checks).is_none() && started.0@ == base_command(
                    *app,
                    *compat_version,
                    started.1@,
                ),
                Err(e) => preflight_failure(checks) == Some(e),
            },
    {
        match self.preflight(checks) {
            Err(e) => Err(e),
            Ok(_) => {
                let token = new_session_token();
                let plan = self.command_for(app, compat_version, token.as_str());
                Ok((plan, token))
            },
        }
    }
}

/// A process that runs, with the entries of its environment, each of the
/// form `NAME=value`.
#[derive(Debug)]
pub struct RunningProcess {
    pub pid: u32,
    pub environ: Vec<String>,
}

/// The value that an environment gives to `name`: that of the last entry
/// that sets it. Entries without `=` set nothing.
pub open spec fn environ_value(environ: Seq<Seq<char>>, name: Seq<char>) -> Option<Seq<char>>
    decreases environ.len(),
{
    if environ.len() == 0 {
        None
    } else {
        match split_once(environ.last(), '=') {
            Some(pair) => if pair.0 == name {
                Some(pair.1)
            } else {
                environ_value(environ.drop_last(), name)
            },
            None => environ_value(environ.drop_last(), name),
        }
    }
}

/// Whether a process carries the session token `token`.
pub open spec fn carries_token(p: RunningProcess, token: Seq<char>) -> bool {
    environ_value(texts(p.environ@), token_variable()) == Some(token)
}

/// The ids of the processes that carry `token`, in the order of the list.
pub open spec fn token_holders(processes: Seq<RunningProcess>, token: Seq<char>) -> Seq<u32>
    decreases processes.len(),
{
    if processes.len() == 0 {
        Seq::<u32>::empty()
    } else if carries_token(processes.last(), token) {
        token_holders(processes.drop_last(), token).push(processes.last().pid)
    } else {
        token_holders(processes.drop_last(), token)
    }
}

/// The value that the environment of a process gives to `name`.
pub fn read_environ(environ: &Vec<String>, name: &str) -> (r: Option<String>)
    ensures
        match r {
            Some(v) => environ_value(texts(environ@), name@) == Some(v@),
            None => environ_value(texts(environ@), name@).is_none(),
        },
{
    let mut i: usize = environ.len();
    assert(texts(environ@).take(i as int) =~= texts(environ@));
    while i > 0
        invariant
            i <= environ.len(),
            environ_value(texts(environ@).take(i as int), name@) == environ_value(
                texts(environ@),
                name@,
            ),
        decreases i,
    {
        let ghost prefix = texts(environ@).take(i as int);
        assert(prefix.drop_last() =~= texts(environ@).take(i - 1));
        assert(prefix.last() == environ@[i - 1]@);
        i = i - 1;
        let entry = chars_of(environ[i].as_str());
        match split_once_exec(&entry, '=') {
            Some(pair) => {
                if is_text(&pair.0, name) {
                    return Some(string_of(&pair.1));
                }
            },
            None => {},
        }
    }
    None
}

/// The processes to signal when the game with the session token `token`
/// is killed: those, and only those, whose environment carries the token.
pub fn find_by_token(processes: &Vec<RunningProcess>, token: &str) -> (pids: Vec<u32>)
    ensures
        pids@ == token_holders(processes@, token@),
{
    let mut pids: Vec<u32> = Vec::new();
    let mut i: usize = 0;
    assert(processes@.take(0) =~= Seq::<RunningProcess>::empty());
    while i < processes.len()
        invariant
            i <= processes.len(),
            pids@ == token_holders(processes@.take(i as int), token@),
        decreases processes.len() - i,
    {
        let ghost next = processes@.take(i + 1);
        assert(next.drop_last() =~= processes@.take(i as int));
        assert(next.last() == processes@[i as int]);
        let held = read_environ(&processes[i].environ, "SVRL_TOKEN");
        let matches = match held {
            Some(v) => str_equal(v.as_str(), token),
            None => false,
        };
        if matches {
            pids.push(processes[i].pid);
        }
        i = i + 1;
    }
    assert(processes@.take(i as int) =~= processes@);
    pids
}

/// A process is signalled only if its environment holds an entry that
/// sets the token variable to exactly the session token, and every process
/// whose environment gives the variable that value is signalled.
pub proof fn law_only_token_holders(processes: Seq<RunningProcess>, token: Seq<char>, pid: u32)
    ensures
        token_holders(processes, token).contains(pid) <==> exists|i: int|
            0 <= i < processes.len() && processes[i].pid == pid && #[trigger] carries_token(
                processes[i],
                token,
            ),
    decreases processes.len(),
{
    if processes.len() > 0 {
        let head = processes.drop_last();
        let last = processes.last();
        law_only_token_holders(head, token, pid);
        let found = token_holders(processes, token);
        if found.contains(pid) {
            if carries_token(last, token) && last.pid == pid {
                assert(carries_token(processes[processes.len() - 1], token));
            } else {
                if carries_token(last, token) {
                    let k = choose|k: int| 0 <= k < found.len() && found[k] == pid;
                    assert(k < found.len() - 1);
                    assert(token_holders(head, token)[k] == pid);
                }
                assert(token_holders(head, token).contains(pid));
                let i = choose|i: int|
                    0 <= i < head.len() && head[i].pid == pid && #[trigger] carries_token(
                        head[i],
                        token,
                    );
                assert(carries_token(processes[i], token));
            }
        }
        if exists|i: int|
            0 <= i < processes.len() && processes[i].pid == pid && #[trigger] carries_token(
                processes[i],
                token,
            ) {
            let i = choose|i: int|
                0 <= i < processes.len() && processes[i].pid == pid && #[trigger] carries_token(
                    processes[i],
                    token,
                );
            if i < head.len() {
                assert(carries_token(head[i], token));
                let k = choose|k: int|
                    0 <= k < token_holders(head, token).len() && token_holders(head, token)[k]
                        == pid;
                assert(found[k] == pid);
            } else {
                assert(found[found.len() - 1] == pid);
            }
        }
    }
}

/// A process that carries the token has, in its environment, an entry made
/// of the token variable's name, `=`, and the token.
pub proof fn law_token_entry(environ: Seq<Seq<char>>, name: Seq<char>, value: Seq<char>)
    requires
        environ_value(environ, name) == Some(value),
        !name.contains('='),
    ensures
        environ.contains(name + seq!['='] + value),
    decreases environ.len(),
{
    let last = environ.last();
    match split_once(last, '=') {
        Some(pair) => {
            if pair.0 == name {
                crate::text::lemma_index_from(last, '=', 0);
                assert(last =~= name + seq!['='] + value);
                assert(environ[environ.len() - 1] == last);
            } else {
                law_token_entry(environ.drop_last(), name, value);
                let e = name + seq!['='] + value;
                let i = choose|i: int| 0 <= i < environ.drop_last().len() && environ.drop_last()[i] == e;
                assert(environ[i] == e);
            }
        },
        None => {
            law_token_entry(environ.drop_last(), name, value);
            let e = name + seq!['='] + value;
            let i = choose|i: int| 0 <= i < environ.drop_last().len() && environ.drop_last()[i] == e;
            assert(environ[i] == e);
        },
    }
}

/// A process that carries the session token has, in its environment, the
/// entry made of the token variable's name, `=`, and exactly the token.
pub proof fn law_token_holder_has_entry(p: RunningProcess, token: Seq<char>)
    requires
        carries_token(p, token),
    ensures
        texts(p.environ@).contains(token_variable() + seq!['='] + token),
{
    reveal_strlit("SVRL_TOKEN");
    assert(!token_variable().contains('=')) by {
        if token_variable().contains('=') {
            let i = choose|i: int| 0 <= i < token_variable().len() && token_variable()[i] == '=';
        }
    }
    law_token_entry(texts(p.environ@), token_variable(), token);
}

} // verus!
