//! The environment in which the Steam client starts a game.

use crate::env_map::{pair_texts, set_all};
use crate::number::{decimal, to_decimal};
use crate::paths::{join_path, parent_of, path_join, path_parent};
use crate::steam::launcher::{step_views, CommandPlan, CommandPlanView, FsStep, FsStepView};
use crate::steam::steam_interface::{ProtonVersion, SteamApp};
use crate::text::{slice_of, string_of};
use std::hash::BuildHasher;
use vstd::prelude::*;

verus! {

/// Calls the standard library's default hasher on `seed`. The hasher's
/// algorithm is not specified, so nothing is claimed of the number.
#[verifier::external_body]
fn default_hash(seed: &str) -> (h: u64) {
    std::hash::BuildHasherDefault::<std::hash::DefaultHasher>::default().hash_one(seed)
}

/// `n` zeros.
pub open spec fn zeros(n: nat) -> Seq<char> {
    Seq::new(n, |i: int| '0')
}

/// A number in decimal, filled with zeros at the front to twenty digits.
pub open spec fn twenty_digits(h: nat) -> Seq<char> {
    let digits = decimal(h);
    if digits.len() >= 20 {
        digits.take(20)
    } else {
        zeros((20 - digits.len()) as nat) + digits
    }
}

/// The twenty-digit code of a number.
pub fn code_of(h: u64) -> (r: String)
    ensures
        r@ == twenty_digits(h as nat),
        r@.len() == 20,
{
    let digits = to_decimal(h);
    if digits.len() >= 20 {
        let cut = slice_of(&digits, 0, 20);
        string_of(&cut)
    } else {
        let mut padded: Vec<char> = Vec::new();
        let fill = 20 - digits.len();
        let mut i: usize = 0;
        while i < fill
            invariant
                i <= fill,
                padded@ == zeros(i as nat),
            decreases fill - i,
        {
            padded.push('0');
            assert(padded@ =~= zeros((i + 1) as nat));
            i = i + 1;
        }
        crate::text::extend(&mut padded, &digits);
        string_of(&padded)
    }
}

/// A code of twenty digits for an application that has no id of its own,
/// made from the hash of `seed`.
pub fn generate_20_digit_code(seed: &str) -> (r: String)
    ensures
        r@.len() == 20,
        exists|h: u64| r@ == twenty_digits(h as nat),
{
    let h = default_hash(seed);
    code_of(h)
}

/// What the Steam client's environment is made from.
pub struct SteamContext {
    /// The directory of the Steam installation.
    pub steam_home: String,
    /// The account that was logged in last.
    pub user_name: String,
}

/// The directory under the Steam installation that is kept for the
/// application with the id `assigned`, below `kind`.
pub open spec fn app_directory(home: Seq<char>, kind: Seq<char>, assigned: Seq<char>) -> Seq<char> {
    path_join(path_join(home, kind), assigned)
}

/// The directory of the runtime in which games are started.
pub open spec fn runtime_directory(home: Seq<char>) -> Seq<char> {
    path_join(path_join(home, "steamapps/common"@), "SteamLinuxRuntime_sniper"@)
}

/// The variables of the Steam client, in the order in which they are set.
/// `id` is the application's id in decimal, `assigned` the id under which
/// its data is kept, and `tool_directory` the directory of the
/// compatibility tool.
pub open spec fn steam_variables(
    id: Seq<char>,
    assigned: Seq<char>,
    user: Seq<char>,
    home: Seq<char>,
    app_folder: Seq<char>,
    tool_directory: Seq<char>,
) -> Seq<(Seq<char>, Seq<char>)> {
    let shader = app_directory(home, "steamapps/shadercache"@, assigned);
    seq![
        ("SteamAppId"@, id),
        ("SteamGameId"@, assigned),
        ("SteamOverlayGameId"@, assigned),
        ("SteamUser"@, user),
        ("SteamEnv"@, "1"@),
        ("STEAM_COMPAT_APP_ID"@, id),
        ("STEAM_COMPAT_CLIENT_INSTALL_PATH"@, home),
        ("STEAM_COMPAT_DATA_PATH"@, app_directory(home, "steamapps/compatdata"@, assigned)),
        ("STEAM_COMPAT_FLAGS"@, "search-cwd"@),
        ("STEAM_COMPAT_LIBRARY_PATHS"@, path_join(home, "steamapps"@)),
        ("STEAM_COMPAT_INSTALL_PATH"@, app_folder),
        ("PWD"@, app_folder),
        ("AMD_VK_PIPELINE_CACHE_FILENAME"@, "steamapp_shader_cache"@),
        ("STEAM_BASE_FOLDER"@, home),
        ("STEAM_CLIENT_CONFIG_FILE"@, path_join(home, "steam.cfg"@)),
        ("AMD_VK_PIPELINE_CACHE_PATH"@, path_join(shader, "AMDv1"@)),
        ("AMD_VK_USE_PIPELINE_CACHE"@, "1"@),
        ("DXVK_STATE_CACHE_PATH"@, path_join(shader, "DXVK_state_cache"@)),
        ("FOSSILIZE_APPLICATION_INFO_FILTER_PATH"@, path_join(home, "fossilize_engine_filters.json"@)),
        ("SDL_GAMECONTROLLER_ALLOW_STEAM_VIRTUAL_GAMEPAD"@, "1"@),
        ("SDL_JOYSTICK_HIDAPI_STEAMXBOX"@, "0"@),
        ("SDL_VIDEO_X11_DGAMOUSE"@, "0"@),
        ("DISABLE_LAYER_AMD_SWITCHABLE_GRAPHICS_1"@, "1"@),
        ("ENABLE_VK_LAYER_VALVE_steam_fossilize_1"@, "1"@),
        ("ENABLE_VK_LAYER_VALVE_steam_overlay_1"@, "1"@),
        ("MESA_DISK_CACHE_SINGLE_FILE"@, "1"@),
        ("MESA_GLSL_CACHE_MAX_SIZE"@, "5G"@),
        ("MESA_SHADER_CACHE_MAX_SIZE"@, "5G"@),
        ("__GL_SHADER_DISK_CACHE_SKIP_CLEANUP"@, "1"@),
        ("__GL_SHADER_DISK_CACHE_APP_NAME"@, "steamapp_shader_cache"@),
        ("__GL_SHADER_DISK_CACHE_READ_ONLY_APP_NAME"@, "steam_shader_cache;steamapp_merged_shader_cache"@),
        ("__GL_SHADER_DISK_CACHE_PATH"@, path_join(shader, "fozmediav1"@)),
        ("STEAM_COMPAT_MEDIA_PATH"@, path_join(shader, "fozmediav1"@)),
        ("STEAM_FOSSILIZE_DUMP_PATH"@, path_join(shader, "fozpipelinesv6/steamapprun_pipeline_cache"@)),
        ("STEAM_COMPAT_SHADER_PATH"@, shader),
        ("MESA_GLSL_CACHE_DIR"@, shader),
        ("MESA_SHADER_CACHE_DIR"@, shader),
        ("STEAM_COMPAT_TRANSCODED_MEDIA_PATH"@, shader),
        ("STEAM_COMPAT_MOUNTS"@, runtime_directory(home)),
        ("STEAM_COMPAT_PROTON"@, "1"@),
        ("STEAM_COMPAT_TOOL_PATHS"@, tool_directory + ":"@ + runtime_directory(home)),
        ("STEAM_FOSSILIZE_DUMP_PATH_READ_ONLY"@, "$bucketdir/steam_pipeline_cache.foz;$bucketdir/steamapp_pipeline_cache.foz"@),
        ("WINEDLLOVERRIDES"@, "winhttp=n,b"@),
    ]
}

/// The directories that are made for the application before it starts.
pub open spec fn steam_directories(home: Seq<char>, assigned: Seq<char>) -> Seq<FsStepView> {
    let shader = app_directory(home, "steamapps/shadercache"@, assigned);
    seq![
        FsStepView::CreateDirAll(app_directory(home, "steamapps/compatdata"@, assigned)),
        FsStepView::CreateDirAll(path_join(shader, "fozmediav1"@)),
        FsStepView::CreateDirAll(path_join(shader, "fozpipelinesv6"@)),
        FsStepView::CreateDirAll(path_join(shader, "DXVK_state_cache"@)),
        FsStepView::CreateDirAll(path_join(shader, "AMDv1"@)),
    ]
}

/// The command once the Steam client's environment is set for it, with
/// `assigned` as the id under which the application's data is kept.
pub open spec fn steam_command(
    command: CommandPlanView,
    app: SteamApp,
    compat_version: ProtonVersion,
    context: SteamContext,
    assigned: Seq<char>,
) -> CommandPlanView {
    CommandPlanView {
        envs: set_all(
            command.envs,
            steam_variables(
                decimal(app.steam_id as nat),
                assigned,
                context.user_name@,
                context.steam_home@,
                app.app_folder@,
                path_parent(compat_version.executable_path@).unwrap(),
            ),
        ),
        current_dir: app.app_folder@,
        fs_steps: command.fs_steps + steam_directories(context.steam_home@, assigned),
        ..command
    }
}

/// A name and a value.
fn pair(name: &str, value: &str) -> (p: (String, String))
    ensures
        p.0@ == name@,
        p.1@ == value@,
{
    (name.to_owned(), value.to_owned())
}

/// Starts a game as the Steam client would.
#[derive(Debug)]
pub struct SteamLaunchModifier {}

impl SteamLaunchModifier {
    pub fn new() -> SteamLaunchModifier {
        SteamLaunchModifier {  }
    }

    /// Sets the variables of the Steam client in the command's
    /// environment, makes the application's folder the working directory,
    /// and adds the directories that have to exist. `assigned` is the id
    /// under which the application's data is kept: its own id, or a code
    /// made for it where it has none. Nothing is changed where the
    /// compatibility tool's path has no parent.
    pub fn apply_with(
        &self,
        command: &mut CommandPlan,
        app: &SteamApp,
        compat_version: &ProtonVersion,
        context: &SteamContext,
        assigned: &str,
    ) -> (done: bool)
        ensures
            done == path_parent(compat_version.executable_path@).is_some(),
            !done ==> final(command)@ == old(command)@,
            done ==> final(command)@ == steam_command(
                old(command)@,
                *app,
                *compat_version,
                *context,
                assigned@,
            ),
    {
        let tool_directory = match parent_of(compat_version.executable_path.as_str()) {
            Some(d) => d,
            None => {
                return false;
            },
        };
        let home = context.steam_home.as_str();
        let id = string_of(&to_decimal(app.steam_id as u64));
        let compat = join_path(join_path(home, "steamapps/compatdata").as_str(), assigned);
        let shader = join_path(join_path(home, "steamapps/shadercache").as_str(), assigned);
        let runtime = join_path(
            join_path(home, "steamapps/common").as_str(),
            "SteamLinuxRuntime_sniper",
        );
        let media = join_path(shader.as_str(), "fozmediav1");
        let amd = join_path(shader.as_str(), "AMDv1");
        let dxvk = join_path(shader.as_str(), "DXVK_state_cache");
        let mut tools = tool_directory;
        tools.append(":");
        tools.append(runtime.as_str());
        let folder = app.app_folder.as_str();
        let mut vars: Vec<(String, String)> = Vec::new();
        vars.push(pair("SteamAppId", id.as_str()));
        vars.push(pair("SteamGameId", assigned));
        vars.push(pair("SteamOverlayGameId", assigned));
        vars.push(pair("SteamUser", context.user_name.as_str()));
        vars.push(pair("SteamEnv", "1"));
        vars.push(pair("STEAM_COMPAT_APP_ID", id.as_str()));
        vars.push(pair("STEAM_COMPAT_CLIENT_INSTALL_PATH", home));
        vars.push(pair("STEAM_COMPAT_DATA_PATH", compat.as_str()));
        vars.push(pair("STEAM_COMPAT_FLAGS", "search-cwd"));
        vars.push(pair("STEAM_COMPAT_LIBRARY_PATHS", join_path(home, "steamapps").as_str()));
        vars.push(pair("STEAM_COMPAT_INSTALL_PATH", folder));
        vars.push(pair("PWD", folder));
        vars.push(pair("AMD_VK_PIPELINE_CACHE_FILENAME", "steamapp_shader_cache"));
        vars.push(pair("STEAM_BASE_FOLDER", home));
        vars.push(pair("STEAM_CLIENT_CONFIG_FILE", join_path(home, "steam.cfg").as_str()));
        vars.push(pair("AMD_VK_PIPELINE_CACHE_PATH", amd.as_str()));
        vars.push(pair("AMD_VK_USE_PIPELINE_CACHE", "1"));
        vars.push(pair("DXVK_STATE_CACHE_PATH", dxvk.as_str()));
        vars.push(
            pair(
                "FOSSILIZE_APPLICATION_INFO_FILTER_PATH",
                join_path(home, "fossilize_engine_filters.json").as_str(),
            ),
        );
        vars.push(pair("SDL_GAMECONTROLLER_ALLOW_STEAM_VIRTUAL_GAMEPAD", "1"));
        vars.push(pair("SDL_JOYSTICK_HIDAPI_STEAMXBOX", "0"));
        vars.push(pair("SDL_VIDEO_X11_DGAMOUSE", "0"));
        vars.push(pair("DISABLE_LAYER_AMD_SWITCHABLE_GRAPHICS_1", "1"));
        vars.push(pair("ENABLE_VK_LAYER_VALVE_steam_fossilize_1", "1"));
        vars.push(pair("ENABLE_VK_LAYER_VALVE_steam_overlay_1", "1"));
        vars.push(pair("MESA_DISK_CACHE_SINGLE_FILE", "1"));
        vars.push(pair("MESA_GLSL_CACHE_MAX_SIZE", "5G"));
        vars.push(pair("MESA_SHADER_CACHE_MAX_SIZE", "5G"));
        vars.push(pair("__GL_SHADER_DISK_CACHE_SKIP_CLEANUP", "1"));
        vars.push(pair("__GL_SHADER_DISK_CACHE_APP_NAME", "steamapp_shader_cache"));
        vars.push(
            pair(
                "__GL_SHADER_DISK_CACHE_READ_ONLY_APP_NAME",
                "steam_shader_cache;steamapp_merged_shader_cache",
            ),
        );
        vars.push(pair("__GL_SHADER_DISK_CACHE_PATH", media.as_str()));
        vars.push(pair("STEAM_COMPAT_MEDIA_PATH", media.as_str()));
        vars.push(
            pair(
                "STEAM_FOSSILIZE_DUMP_PATH",
                join_path(shader.as_str(), "fozpipelinesv6/steamapprun_pipeline_cache").as_str(),
            ),
        );
        vars.push(pair("STEAM_COMPAT_SHADER_PATH", shader.as_str()));
        vars.push(pair("MESA_GLSL_CACHE_DIR", shader.as_str()));
        vars.push(pair("MESA_SHADER_CACHE_DIR", shader.as_str()));
        vars.push(pair("STEAM_COMPAT_TRANSCODED_MEDIA_PATH", shader.as_str()));
        vars.push(pair("STEAM_COMPAT_MOUNTS", runtime.as_str()));
        vars.push(pair("STEAM_COMPAT_PROTON", "1"));
        vars.push(pair("STEAM_COMPAT_TOOL_PATHS", tools.as_str()));
        vars.push(
            pair(
                "STEAM_FOSSILIZE_DUMP_PATH_READ_ONLY",
                "$bucketdir/steam_pipeline_cache.foz;$bucketdir/steamapp_pipeline_cache.foz",
            ),
        );
        vars.push(pair("WINEDLLOVERRIDES", "winhttp=n,b"));
        assert(pair_texts(vars@) =~= steam_variables(
            decimal(app.steam_id as nat),
            assigned@,
            context.user_name@,
            context.steam_home@,
            app.app_folder@,
            path_parent(compat_version.executable_path@).unwrap(),
        ));
        command.envs.insert_all(vars);
        command.current_dir = app.app_folder.clone();
        let ghost before = step_views(command.fs_steps@);
        command.fs_steps.push(FsStep::CreateDirAll(compat));
        command.fs_steps.push(FsStep::CreateDirAll(media));
        command.fs_steps.push(
            FsStep::CreateDirAll(join_path(shader.as_str(), "fozpipelinesv6")),
        );
        command.fs_steps.push(FsStep::CreateDirAll(dxvk));
        command.fs_steps.push(FsStep::CreateDirAll(amd));
        assert(step_views(command.fs_steps@) =~= before + steam_directories(
            context.steam_home@,
            assigned@,
        ));
        true
    }

    /// Applies the modifier with the id under which the application's data
    /// is kept: its own id, or a code made from its executable's name where
    /// its id is 0.
    pub fn apply(
        &self,
        command: &mut CommandPlan,
        app: &SteamApp,
        compat_version: &ProtonVersion,
        context: &SteamContext,
    ) -> (done: bool)
        ensures
            done == path_parent(compat_version.executable_path@).is_some(),
            !done ==> final(command)@ == old(command)@,
            done && app.steam_id != 0 ==> final(command)@ == steam_command(
                old(command)@,
                *app,
                *compat_version,
                *context,
                decimal(app.steam_id as nat),
            ),
            done && app.steam_id == 0 ==> exists|h: u64|
                final(command)@ == steam_command(
                    old(command)@,
                    *app,
                    *compat_version,
                    *context,
                    #[trigger] twenty_digits(h as nat),
                ),
    {
        let assigned = if app.steam_id == 0 {
            generate_20_digit_code(app.executable.as_str())
        } else {
            string_of(&to_decimal(app.steam_id as u64))
        };
        self.apply_with(command, app, compat_version, context, assigned.as_str())
    }
}

} // verus!
