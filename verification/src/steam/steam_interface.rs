//! The catalog of installed applications and compatibility tools, and how
//! the target of a launch is chosen from it.

use crate::command_parser::{parse_linux_command, parsed, result_text, ParsedCommand};
use crate::env_map::EnvMap;
use crate::models::Game;
use crate::app_state::LaunchError;
use crate::number::{signed_decimal, to_signed_decimal};
use crate::paths::{join_path, path_join};
use crate::steam::vfd_format::{as_number, descend, find_node, node_position, KVValue};
use crate::text::{
    chars_of, contains_exec, contains_text, lemma_texts_push, replace, replace_exec, rows, split,
    split_exec, str_equal, string_of, texts,
};
use vstd::prelude::*;

verus! {

/// An installed application.
#[derive(Debug, PartialEq, Eq)]
pub struct SteamApp {
    pub steam_id: u32,
    pub is_vr_app: bool,
    pub title: String,
    pub app_folder: String,
    pub executable: String,
    pub arguments: Vec<String>,
    pub working_directory: String,
}

/// An installed compatibility tool.
#[derive(Debug, PartialEq, Eq)]
pub struct ProtonVersion {
    pub steam_id: Option<u32>,
    pub name: String,
    pub executable_path: String,
}

/// The catalog.
pub struct SteamInterface {}

/// Why no target was found for a launch.
#[derive(Debug, PartialEq, Eq)]
pub enum ResolveError {
    /// No installed application has this id.
    AppNotFound(i64),
    /// The custom command line could not be parsed; the parser's message.
    CommandLine(String),
    /// The game has neither an application id nor a command line.
    NotEnoughInformation,
    /// The game names no compatibility tool.
    ProtonRequired,
    /// No installed compatibility tool has this name.
    ProtonMissing(String),
}

/// What is to be started, and with what.
#[derive(Debug)]
pub struct LaunchTarget {
    pub app: SteamApp,
    pub compat_version: ProtonVersion,
    /// The variables that a custom command line sets, where it sets any.
    pub variables: Option<EnvMap>,
}

/// The position of the first application with the id `steam_id`, from `i`
/// on, or the number of applications.
pub open spec fn app_position(apps: Seq<SteamApp>, steam_id: u32, i: int) -> int
    decreases apps.len() - i,
{
    if i < 0 || i >= apps.len() || apps[i].steam_id == steam_id {
        i
    } else {
        app_position(apps, steam_id, i + 1)
    }
}

/// The position of the first tool with the name `name`, from `i` on, or the
/// number of tools.
pub open spec fn tool_position(tools: Seq<ProtonVersion>, name: Seq<char>, i: int) -> int
    decreases tools.len() - i,
{
    if i < 0 || i >= tools.len() || tools[i].name@ == name {
        i
    } else {
        tool_position(tools, name, i + 1)
    }
}

/// The low 32 bits of an application id.
pub open spec fn low_id(id: i64) -> u32 {
    (id as int % 0x1_0000_0000) as u32
}

/// The low 32 bits of an application id.
pub fn low_id_exec(id: i64) -> (r: u32)
    ensures
        r == low_id(id),
{
    if id >= 0 {
        (id % 0x1_0000_0000) as u32
    } else {
        let below: i64 = -(id + 1);
        let m: i64 = below % 0x1_0000_0000;
        (0xffff_ffff - m) as u32
    }
}

impl SteamInterface {
    pub fn new() -> SteamInterface {
        SteamInterface {  }
    }

    /// The first application with the id `steam_id`.
    pub fn find_app(&self, apps: Vec<SteamApp>, steam_id: u32) -> (r: Option<SteamApp>)
        ensures
            r == (if app_position(apps@, steam_id, 0) < apps@.len() {
                Some(apps@[app_position(apps@, steam_id, 0)])
            } else {
                None
            }),
    {
        let mut rest = apps;
        let mut i: usize = 0;
        while i < rest.len()
            invariant
                i <= rest.len(),
                rest@ == apps@,
                app_position(apps@, steam_id, i as int) == app_position(apps@, steam_id, 0),
            decreases rest.len() - i,
        {
            if rest[i].steam_id == steam_id {
                return Some(rest.remove(i));
            }
            i = i + 1;
        }
        None
    }

    /// The first compatibility tool with the name `name`.
    pub fn find_proton_version(&self, tools: Vec<ProtonVersion>, name: &str) -> (r: Option<
        ProtonVersion,
    >)
        ensures
            r == (if tool_position(tools@, name@, 0) < tools@.len() {
                Some(tools@[tool_position(tools@, name@, 0)])
            } else {
                None
            }),
    {
        let mut rest = tools;
        let mut i: usize = 0;
        while i < rest.len()
            invariant
                i <= rest.len(),
                rest@ == tools@,
                tool_position(tools@, name@, i as int) == tool_position(tools@, name@, 0),
            decreases rest.len() - i,
        {
            if str_equal(rest[i].name.as_str(), name) {
                return Some(rest.remove(i));
            }
            i = i + 1;
        }
        None
    }
}

/// The application that a parsed command line stands for: it runs in the
/// command's working directory, which is also taken for its folder.
pub fn custom_app(steam_id: Option<i64>, title: &String, command: ParsedCommand) -> (r: (
    SteamApp,
    Option<EnvMap>,
))
    ensures
        r.0.steam_id == (match steam_id {
            Some(id) => low_id(id),
            None => 0u32,
        }),
        r.0.is_vr_app,
        r.0.title == *title,
        r.0.app_folder@ == command@.working_dir,
        r.0.working_directory@ == command@.working_dir,
        r.0.executable@ == command@.executable,
        texts(r.0.arguments@) == command@.arguments,
        match r.1 {
            Some(vars) => vars@ == command@.env_vars && !(command@.env_vars
                == Map::<Seq<char>, Seq<char>>::empty()),
            None => command@.env_vars == Map::<Seq<char>, Seq<char>>::empty(),
        },
{
    let variables = if command.env_vars.is_empty() {
        None
    } else {
        Some(command.env_vars)
    };
    let app = SteamApp {
        steam_id: match steam_id {
            Some(id) => low_id_exec(id),
            None => 0,
        },
        is_vr_app: true,
        title: title.clone(),
        app_folder: command.working_dir.clone(),
        working_directory: command.working_dir,
        executable: command.executable,
        arguments: command.arguments,
    };
    (app, variables)
}

/// The ways in which a launch can be without a target.
#[derive(Debug, Clone, Copy, PartialEq, Eq, Structural)]
pub enum ResolveFailure {
    AppNotFound,
    CommandLine,
    NotEnoughInformation,
    ProtonRequired,
    ProtonMissing,
}

impl ResolveError {
    /// The way in which the launch is without a target.
    pub open spec fn kind(self) -> ResolveFailure {
        match self {
            ResolveError::AppNotFound(_) => ResolveFailure::AppNotFound,
            ResolveError::CommandLine(_) => ResolveFailure::CommandLine,
            ResolveError::NotEnoughInformation => ResolveFailure::NotEnoughInformation,
            ResolveError::ProtonRequired => ResolveFailure::ProtonRequired,
            ResolveError::ProtonMissing(_) => ResolveFailure::ProtonMissing,
        }
    }
}

/// The message of an error of the resolution.
pub open spec fn resolve_message(e: ResolveError) -> Seq<char> {
    match e {
        ResolveError::AppNotFound(id) => "Could not find Steam app with id "@ + signed_decimal(
            id as int,
        ),
        ResolveError::CommandLine(message) => "Could not parse launch command: "@ + message@,
        ResolveError::NotEnoughInformation => "Not enough information to launch the game!"@,
        ResolveError::ProtonRequired => "Running games without proton is currently not supported!"@,
        ResolveError::ProtonMissing(name) => "Missing proton version: "@ + name@ + "!"@,
    }
}

impl ResolveError {
    /// The message of the error.
    pub fn message(&self) -> (m: String)
        ensures
            m@ == resolve_message(*self),
    {
        match self {
            ResolveError::AppNotFound(id) => {
                let mut m = "Could not find Steam app with id ".to_owned();
                let digits = string_of(&to_signed_decimal(*id));
                m.append(digits.as_str());
                m
            },
            ResolveError::CommandLine(message) => {
                let mut m = "Could not parse launch command: ".to_owned();
                m.append(message.as_str());
                m
            },
            ResolveError::NotEnoughInformation => "Not enough information to launch the game!".to_owned(),
            ResolveError::ProtonRequired => "Running games without proton is currently not supported!".to_owned(),
            ResolveError::ProtonMissing(name) => {
                let mut m = "Missing proton version: ".to_owned();
                m.append(name.as_str());
                m.append("!");
                m
            },
        }
    }

    /// The error of the launch that this error ends: the target could not
    /// be resolved from the catalog.
    pub fn launch_error(&self) -> (r: LaunchError)
        ensures
            r matches LaunchError::CatalogResolutionFailed(m) && m@ == resolve_message(*self),
    {
        LaunchError::CatalogResolutionFailed(self.message())
    }
}

/// Why a game has no application to start, if it has none: a command line
/// comes before an application id, and must parse; an id must be that of an
/// installed application.
pub open spec fn app_failure(
    game: Game,
    apps: Seq<SteamApp>,
    current_dir: Result<Seq<char>, Seq<char>>,
) -> Option<ResolveFailure> {
    match (game.steam_app_id, game.command_line) {
        (_, Some(line)) => if parsed(line@, current_dir).is_err() {
            Some(ResolveFailure::CommandLine)
        } else {
            None
        },
        (Some(id), None) => if app_position(apps, low_id(id), 0) < apps.len() {
            None
        } else {
            Some(ResolveFailure::AppNotFound)
        },
        (None, None) => Some(ResolveFailure::NotEnoughInformation),
    }
}

/// Why a game has no compatibility tool to start with, if it has none.
pub open spec fn tool_failure(game: Game, tools: Seq<ProtonVersion>) -> Option<ResolveFailure> {
    match game.proton_version {
        None => Some(ResolveFailure::ProtonRequired),
        Some(name) => if tool_position(tools, name@, 0) < tools.len() {
            None
        } else {
            Some(ResolveFailure::ProtonMissing)
        },
    }
}

/// Why a launch has no target, if it has none. The application is looked
/// for first.
pub open spec fn resolve_failure(
    game: Game,
    apps: Seq<SteamApp>,
    tools: Seq<ProtonVersion>,
    current_dir: Result<Seq<char>, Seq<char>>,
) -> Option<ResolveFailure> {
    if app_failure(game, apps, current_dir).is_some() {
        app_failure(game, apps, current_dir)
    } else {
        tool_failure(game, tools)
    }
}

/// Chooses the application and the compatibility tool of a launch.
///
/// A game with a command line is started as that command says, and its
/// variables become those of the game. A game with an application id is
/// started as the installed application with that id. The compatibility
/// tool is the installed one that the game names. `apps` and `tools` are
/// what the catalog holds; `current_dir` is the directory that the caller
/// runs in, or why it is not known.
pub fn resolve_target(
    game: &Game,
    apps: Vec<SteamApp>,
    tools: Vec<ProtonVersion>,
    current_dir: Result<String, String>,
) -> (r: Result<LaunchTarget, ResolveError>)
    ensures
        match r {
            Ok(t) => {
                &&& resolve_failure(*game, apps@, tools@, result_text(current_dir)).is_none()
                &&& t.compat_version == tools@[tool_position(
                    tools@,
                    game.proton_version.unwrap()@,
                    0,
                )]
                &&& match game.command_line {
                    Some(line) => {
                        let command = parsed(line@, result_text(current_dir))->Ok_0;
                        &&& t.app.steam_id == (match game.steam_app_id {
                            Some(id) => low_id(id),
                            None => 0u32,
                        })
                        &&& t.app.is_vr_app
                        &&& t.app.title == game.title
                        &&& t.app.app_folder@ == command.working_dir
                        &&& t.app.working_directory@ == command.working_dir
                        &&& t.app.executable@ == command.executable
                        &&& texts(t.app.arguments@) == command.arguments
                        &&& match t.variables {
                            Some(vars) => vars@ == command.env_vars,
                            None => command.env_vars == Map::<Seq<char>, Seq<char>>::empty(),
                        }
                    },
                    None => {
                        &&& t.variables.is_none()
                        &&& t.app == apps@[app_position(
                            apps@,
                            low_id(game.steam_app_id.unwrap()),
                            0,
                        )]
                    },
                }
            },
            Err(e) => {
                &&& resolve_failure(*game, apps@, tools@, result_text(current_dir)) == Some(
                    e.kind(),
                )
                &&& e matches ResolveError::AppNotFound(id) ==> Some(id) == game.steam_app_id
                &&& e matches ResolveError::ProtonMissing(name) ==> Some(name)
                    == game.proton_version
                &&& e matches ResolveError::CommandLine(message) ==> parsed(
                    game.command_line.unwrap()@,
                    result_text(current_dir),
                ) == Err::<crate::command_parser::ParsedCommandView, Seq<char>>(message@)
            },
        },
{
    let catalog = SteamInterface::new();
    let (app, variables) = match (&game.steam_app_id, &game.command_line) {
        (steam_id, Some(line)) => {
            match parse_linux_command(line.as_str(), current_dir) {
                Ok(command) => custom_app(*steam_id, &game.title, command),
                Err(message) => {
                    return Err(ResolveError::CommandLine(message));
                },
            }
        },
        (Some(id), None) => {
            match catalog.find_app(apps, low_id_exec(*id)) {
                Some(app) => (app, None),
                None => {
                    return Err(ResolveError::AppNotFound(*id));
                },
            }
        },
        (None, None) => {
            return Err(ResolveError::NotEnoughInformation);
        },
    };
    let compat_version = match &game.proton_version {
        Some(name) => match catalog.find_proton_version(tools, name.as_str()) {
            Some(tool) => tool,
            None => {
                return Err(ResolveError::ProtonMissing(name.clone()));
            },
        },
        None => {
            return Err(ResolveError::ProtonRequired);
        },
    };
    Ok(LaunchTarget { app, compat_version, variables })
}

/// An application as a Steam library lists it.
#[derive(Debug)]
pub struct InstalledApp {
    pub app_id: u32,
    pub install_dir: String,
    pub name: Option<String>,
    /// The directory of the library that holds the application.
    pub library_path: String,
}

/// Why an installed application cannot be described.
#[derive(Debug, Clone, Copy, PartialEq, Eq, Structural)]
pub enum CatalogError {
    /// The database knows nothing of the application.
    MissingAppInfo,
    /// The library gives the application no name.
    MissingName,
}

/// The value reached from `v` by a path of keys with `.` between them.
pub open spec fn at_path(v: KVValue, path: Seq<char>) -> Option<KVValue> {
    descend(v, split(path, seq!['.']), 0)
}

/// Whether a launch configuration is one for Windows: it names Windows
/// among its systems, or names no system.
pub open spec fn for_windows(config: KVValue) -> bool {
    match at_path(config, "config.oslist"@) {
        None => true,
        Some(KVValue::Empty) => true,
        Some(KVValue::String(s)) => contains_text(s@, "windows"@),
        Some(_) => false,
    }
}

/// The position of the first launch configuration for Windows, from `i`
/// on, or the number of configurations.
pub open spec fn windows_config(configs: Seq<(String, KVValue)>, i: int) -> int
    decreases configs.len() - i,
{
    if i < 0 || i >= configs.len() || for_windows(configs[i].1) {
        i
    } else {
        windows_config(configs, i + 1)
    }
}

/// The text of a string value at a path, if a string stands there.
pub open spec fn text_at_path(v: KVValue, path: Seq<char>) -> Option<Seq<char>> {
    match at_path(v, path) {
        Some(KVValue::String(s)) => Some(s@),
        _ => None,
    }
}

/// A path with `/` in place of each `\`.
pub open spec fn with_slashes(path: Seq<char>) -> Seq<char> {
    replace(path, seq!['\\'], seq!['/'])
}

/// The folder of an installed application.
pub open spec fn install_folder(app: InstalledApp) -> Seq<char> {
    path_join(path_join(app.library_path@, "steamapps/common"@), app.install_dir@)
}

/// What a `SteamApp` holds.
pub struct SteamAppView {
    pub steam_id: u32,
    pub is_vr_app: bool,
    pub title: Seq<char>,
    pub app_folder: Seq<char>,
    pub executable: Seq<char>,
    pub arguments: Seq<Seq<char>>,
    pub working_directory: Seq<char>,
}

impl View for SteamApp {
    type V = SteamAppView;

    open spec fn view(&self) -> SteamAppView {
        SteamAppView {
            steam_id: self.steam_id,
            is_vr_app: self.is_vr_app,
            title: self.title@,
            app_folder: self.app_folder@,
            executable: self.executable@,
            arguments: texts(self.arguments@),
            working_directory: self.working_directory@,
        }
    }
}

/// The application that a launch configuration describes.
pub open spec fn described(app: InstalledApp, info: KVValue, config: KVValue) -> Option<
    SteamAppView,
> {
    match text_at_path(config, "executable"@) {
        None => None,
        Some(executable) => Some(
            SteamAppView {
                steam_id: app.app_id,
                is_vr_app: as_number_at(info, "common.openvrsupport"@) == Some(1i32),
                title: app.name.unwrap()@,
                app_folder: install_folder(app),
                executable: with_slashes(executable),
                arguments: match text_at_path(config, "arguments"@) {
                    Some(args) => split(args, seq![' ']),
                    None => Seq::empty(),
                },
                working_directory: match text_at_path(config, "workingdir"@) {
                    Some(dir) => path_join(install_folder(app), with_slashes(dir)),
                    None => install_folder(app),
                },
            },
        ),
    }
}

/// The whole number that the value at a path holds or writes.
pub open spec fn as_number_at(v: KVValue, path: Seq<char>) -> Option<i32> {
    match at_path(v, path) {
        Some(inner) => as_number(inner),
        None => None,
    }
}

/// How an installed application is started, by what the database knows of
/// it: by its first launch configuration for Windows, where it has one
/// that names an executable. `None` where it cannot be started so.
pub open spec fn candidate(app: InstalledApp, data: Seq<(String, KVValue)>) -> Result<
    Option<SteamAppView>,
    CatalogError,
> {
    let at = node_position(data, "appinfo"@, data.len() as int);
    if at < 0 {
        Err(CatalogError::MissingAppInfo)
    } else {
        let info = data[at].1;
        match at_path(info, "config.launch"@) {
            Some(KVValue::Object(configs)) => {
                let chosen = windows_config(configs@, 0);
                if chosen >= configs@.len() {
                    Ok(None)
                } else if text_at_path(configs@[chosen].1, "executable"@).is_none() {
                    Ok(None)
                } else if app.name.is_none() {
                    Err(CatalogError::MissingName)
                } else {
                    Ok(described(app, info, configs@[chosen].1))
                }
            },
            _ => Ok(None),
        }
    }
}

/// The text of the string value at a path.
fn text_at_path_exec(v: &KVValue, path: &str) -> (r: Option<Vec<char>>)
    ensures
        match r {
            Some(t) => text_at_path(*v, path@) == Some(t@),
            None => text_at_path(*v, path@).is_none(),
        },
{
    match v.index(path) {
        Some(KVValue::String(s)) => Some(chars_of(s.as_str())),
        _ => None,
    }
}

/// A path with `/` in place of each `\`.
fn with_slashes_exec(path: &Vec<char>) -> (r: String)
    ensures
        r@ == with_slashes(path@),
{
    let mut back: Vec<char> = Vec::new();
    back.push('\\');
    let mut forward: Vec<char> = Vec::new();
    forward.push('/');
    assert(back@ =~= seq!['\\']);
    assert(forward@ =~= seq!['/']);
    string_of(&replace_exec(path, &back, &forward))
}

/// Whether a launch configuration is one for Windows.
fn for_windows_exec(config: &KVValue) -> (r: bool)
    ensures
        r == for_windows(*config),
{
    match config.index("config.oslist") {
        None => true,
        Some(KVValue::Empty) => true,
        Some(KVValue::String(s)) => {
            let chars = chars_of(s.as_str());
            let name = chars_of("windows");
            contains_exec(&chars, &name)
        },
        Some(_) => false,
    }
}

/// The strings that hold the texts of `v`.
fn to_strings(v: &Vec<Vec<char>>) -> (r: Vec<String>)
    ensures
        texts(r@) == rows(v@),
{
    let mut r: Vec<String> = Vec::new();
    let mut i: usize = 0;
    assert(texts(r@) =~= rows(v@).take(0));
    while i < v.len()
        invariant
            i <= v.len(),
            texts(r@) == rows(v@).take(i as int),
        decreases v.len() - i,
    {
        let s = string_of(&v[i]);
        proof {
            lemma_texts_push(r@, s);
            assert(rows(v@).take(i + 1) =~= rows(v@).take(i as int).push(s@));
        }
        r.push(s);
        i = i + 1;
    }
    assert(rows(v@).take(v.len() as int) =~= rows(v@));
    r
}

impl SteamInterface {
    /// Describes how an installed application is started, from the data
    /// that the database holds of it. The caller keeps the application
    /// where its executable exists.
    pub fn describe_app(&self, app: &InstalledApp, data: &Vec<(String, KVValue)>) -> (r: Result<
        Option<SteamApp>,
        CatalogError,
    >)
        ensures
            match r {
                Ok(Some(described)) => candidate(*app, data@) == Ok::<
                    Option<SteamAppView>,
                    CatalogError,
                >(Some(described@)),
                Ok(None) => candidate(*app, data@) == Ok::<Option<SteamAppView>, CatalogError>(None),
                Err(e) => candidate(*app, data@) == Err::<Option<SteamAppView>, CatalogError>(e),
            },
    {
        let info = match find_node(data, "appinfo") {
            Some(v) => v,
            None => {
                return Err(CatalogError::MissingAppInfo);
            },
        };
        let configs = match info.index("config.launch") {
            Some(KVValue::Object(configs)) => configs,
            _ => {
                return Ok(None);
            },
        };
        let mut i: usize = 0;
        while i < configs.len() && !for_windows_exec(&configs[i].1)
            invariant
                i <= configs.len(),
                windows_config(configs@, i as int) == windows_config(configs@, 0),
            decreases configs.len() - i,
        {
            i = i + 1;
        }
        if i >= configs.len() {
            return Ok(None);
        }
        let config = &configs[i].1;
        let executable = match text_at_path_exec(config, "executable") {
            Some(e) => with_slashes_exec(&e),
            None => {
                return Ok(None);
            },
        };
        let title = match &app.name {
            Some(n) => n.clone(),
            None => {
                return Err(CatalogError::MissingName);
            },
        };
        let is_vr_app = match info.index("common.openvrsupport") {
            Some(v) => match v.parse_i32() {
                Some(n) => n == 1,
                None => false,
            },
            None => false,
        };
        let arguments = match text_at_path_exec(config, "arguments") {
            Some(args) => {
                let mut space: Vec<char> = Vec::new();
                space.push(' ');
                assert(space@ =~= seq![' ']);
                to_strings(&split_exec(&args, &space))
            },
            None => Vec::new(),
        };
        let app_folder = join_path(
            join_path(app.library_path.as_str(), "steamapps/common").as_str(),
            app.install_dir.as_str(),
        );
        let working_directory = match text_at_path_exec(config, "workingdir") {
            Some(dir) => join_path(app_folder.as_str(), with_slashes_exec(&dir).as_str()),
            None => app_folder.clone(),
        };
        let described = SteamApp {
            steam_id: app.app_id,
            is_vr_app,
            title,
            app_folder,
            executable,
            arguments,
            working_directory,
        };
        assert(described@.arguments =~= (match text_at_path(*config, "arguments"@) {
            Some(args) => split(args, seq![' ']),
            None => Seq::empty(),
        }));
        Ok(Some(described))
    }

    /// The compatibility tool that an installed application is, where its
    /// folder holds the tool's binary: the caller keeps it where the binary
    /// exists. Its name is the application's, or that of its folder where
    /// it has none.
    pub fn describe_proton(&self, app: &InstalledApp) -> (r: ProtonVersion)
        ensures
            r.steam_id == Some(app.app_id),
            r.name@ == (match app.name {
                Some(n) => n@,
                None => app.install_dir@,
            }),
            r.executable_path@ == path_join(install_folder(*app), "proton"@),
    {
        let folder = join_path(
            join_path(app.library_path.as_str(), "steamapps/common").as_str(),
            app.install_dir.as_str(),
        );
        ProtonVersion {
            steam_id: Some(app.app_id),
            name: match &app.name {
                Some(n) => n.clone(),
                None => app.install_dir.clone(),
            },
            executable_path: join_path(folder.as_str(), "proton"),
        }
    }

    /// The compatibility tool in a folder of the directory for tools that
    /// were installed by hand.
    pub fn describe_external_proton(&self, folder_path: &str, folder_name: String) -> (r:
        ProtonVersion)
        ensures
            r.steam_id.is_none(),
            r.name == folder_name,
            r.executable_path@ == path_join(folder_path@, "proton"@),
    {
        ProtonVersion {
            steam_id: None,
            name: folder_name,
            executable_path: join_path(folder_path, "proton"),
        }
    }

    /// Whether the application with the id `app_id` was seen among `seen`.
    pub fn seen_before(&self, seen: &Vec<u32>, app_id: u32) -> (r: bool)
        ensures
            r == seen@.contains(app_id),
    {
        let mut i: usize = 0;
        while i < seen.len()
            invariant
                i <= seen.len(),
                forall|j: int| 0 <= j < i ==> seen@[j] != app_id,
            decreases seen.len() - i,
        {
            if seen[i] == app_id {
                return true;
            }
            i = i + 1;
        }
        false
    }
}

/// A user of the Steam client, as the file of logged-in users lists it.
#[derive(Debug)]
pub struct SteamUser {
    pub account_name: Option<String>,
    pub most_recent: Option<String>,
}

/// Why no user name was found.
#[derive(Debug, Clone, Copy, PartialEq, Eq, Structural)]
pub enum UserError {
    /// The file lists no user.
    NoUsers,
    /// The user has no account name.
    NoAccountName,
}

/// The position of the first user marked as the most recent, from `i` on,
/// or the number of users.
pub open spec fn most_recent_user(users: Seq<SteamUser>, i: int) -> int
    decreases users.len() - i,
{
    if i < 0 || i >= users.len() || (users[i].most_recent matches Some(m) && m@ == "1"@) {
        i
    } else {
        most_recent_user(users, i + 1)
    }
}

/// The user whose name is taken: the first that is marked as the most
/// recent, or the first of all where none is marked.
pub open spec fn chosen_user(users: Seq<SteamUser>) -> int {
    if most_recent_user(users, 0) < users.len() {
        most_recent_user(users, 0)
    } else {
        0
    }
}

/// The account name of the user that was logged in last.
pub fn get_user_name(users: &Vec<SteamUser>) -> (r: Result<String, UserError>)
    ensures
        match r {
            Ok(name) => users@.len() > 0 && users@[chosen_user(users@)].account_name == Some(name),
            Err(e) => e == (if users@.len() == 0 {
                UserError::NoUsers
            } else {
                UserError::NoAccountName
            }) && (users@.len() > 0 ==> users@[chosen_user(users@)].account_name.is_none()),
        },
{
    if users.len() == 0 {
        return Err(UserError::NoUsers);
    }
    let mut i: usize = 0;
    while i < users.len()
        invariant
            i <= users.len(),
            users@.len() > 0,
            most_recent_user(users@, i as int) == most_recent_user(users@, 0),
        decreases users.len() - i,
    {
        let marked = match &users[i].most_recent {
            Some(m) => str_equal(m.as_str(), "1"),
            None => false,
        };
        if marked {
            return match &users[i].account_name {
                Some(name) => Ok(name.clone()),
                None => Err(UserError::NoAccountName),
            };
        }
        i = i + 1;
    }
    match &users[0].account_name {
        Some(name) => Ok(name.clone()),
        None => Err(UserError::NoAccountName),
    }
}

} // verus!
