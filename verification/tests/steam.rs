use vr_launcher::backends::envision::envision_launch_modifier::EnvisionLaunchModifier;
use vr_launcher::backends::wivrn::wivrn_launch_modifier::WiVRnLaunchModifier as BackendModifier;
use vr_launcher::env_map::EnvMap;
use vr_launcher::models::Game;
use vr_launcher::steam::launch_modifiers::env_vars::EnvironmentVariablesModifier;
use vr_launcher::steam::launch_modifiers::steam::{
    code_of, generate_20_digit_code, SteamContext, SteamLaunchModifier,
};
use vr_launcher::steam::launch_modifiers::wivrn::WiVRnLaunchModifier;
use vr_launcher::steam::launcher::{
    find_by_token, read_environ, CompatLauncher, FsStep, PathChecks, PreflightError,
    ProcessHandle, RunningProcess,
};
use vr_launcher::steam::steam_interface::{
    get_user_name, low_id_exec, resolve_target, CatalogError, InstalledApp, ProtonVersion,
    ResolveError, SteamApp, SteamInterface, SteamUser, UserError,
};
use vr_launcher::steam::vfd_format::{
    read_object_at, AppInfoDatabase, AppInfoEntry, EUniverse, KV1BinaryDeserializer,
    KV1BinaryNodeType, KVValue, VdfError,
};

fn app() -> SteamApp {
    SteamApp {
        steam_id: 450390,
        is_vr_app: true,
        title: "The Lab".to_string(),
        app_folder: "/games/The Lab".to_string(),
        executable: "bin/lab.exe".to_string(),
        arguments: vec!["-vr".to_string(), "-fast".to_string()],
        working_directory: "/games/The Lab/bin".to_string(),
    }
}

fn proton() -> ProtonVersion {
    ProtonVersion {
        steam_id: None,
        name: "Proton 9".to_string(),
        executable_path: "/tools/Proton 9/proton".to_string(),
    }
}

const ALL: PathChecks =
    PathChecks { working_directory: true, app_folder: true, executable: true, compat_tool: true };

#[test]
fn preflight_names_the_first_missing_path() {
    let l = CompatLauncher::new();
    assert_eq!(l.preflight(ALL), Ok(()));
    assert_eq!(
        l.preflight(PathChecks { working_directory: false, app_folder: false, ..ALL }),
        Err(PreflightError::WorkingDirectoryMissing)
    );
    assert_eq!(
        l.preflight(PathChecks { app_folder: false, ..ALL }),
        Err(PreflightError::InstallDirectoryMissing)
    );
    assert_eq!(
        l.preflight(PathChecks { executable: false, compat_tool: false, ..ALL }),
        Err(PreflightError::ExecutableMissing)
    );
    assert_eq!(
        l.preflight(PathChecks { compat_tool: false, ..ALL }),
        Err(PreflightError::CompatToolMissing)
    );
    assert_eq!(
        PreflightError::ExecutableMissing.message(),
        "The specified app executable does not exist."
    );
    assert_eq!(
        l.preflight_paths(&app(), &proton()),
        vec![
            "/games/The Lab/bin",
            "/games/The Lab",
            "/games/The Lab/bin/lab.exe",
            "/tools/Proton 9/proton",
        ]
    );
    assert!(l
        .launch_app_compat(&app(), &proton(), PathChecks { executable: false, ..ALL })
        .is_err());
}

#[test]
fn command_carries_the_session_token() {
    let l = CompatLauncher::new();
    let plan = l.command_for(&app(), &proton(), "tok");
    assert_eq!(plan.program, "python3");
    assert_eq!(plan.args, vec!["/tools/Proton 9/proton", "run", "bin/lab.exe", "-vr", "-fast"]);
    assert_eq!(plan.current_dir, "/games/The Lab/bin");
    assert_eq!(plan.envs.get("_"), Some(&"/tools/Proton 9/proton".to_string()));
    assert_eq!(plan.envs.get("SVRL_TOKEN"), Some(&"tok".to_string()));
    assert_eq!(plan.envs.len(), 2);
    assert!(plan.fs_steps.is_empty());

    let (plan, token) = l.launch_app_compat(&app(), &proton(), ALL).unwrap();
    assert_eq!(plan.envs.get("SVRL_TOKEN"), Some(&token));
    assert_eq!(token.len(), 36);
    let (_, other) = l.launch_app_compat(&app(), &proton(), ALL).unwrap();
    assert_ne!(token, other);
    assert_eq!(ProcessHandle::null().get_pid(), 0);
    assert_eq!(ProcessHandle::null().get_process_token().len(), 36);
}

fn process(pid: u32, env: &[&str]) -> RunningProcess {
    RunningProcess { pid, environ: env.iter().map(|s| s.to_string()).collect() }
}

#[test]
fn only_processes_with_the_exact_token_are_found() {
    let processes = vec![
        process(1, &["PATH=/bin", "SVRL_TOKEN=abc"]),
        process(2, &["SVRL_TOKEN=abcd"]),
        process(3, &["SVRL_TOKEN=ab"]),
        process(4, &["OTHER=abc", "XSVRL_TOKEN=abc"]),
        process(5, &["SVRL_TOKEN=abc", "HOME=/root"]),
        process(6, &[]),
        process(7, &["SVRL_TOKEN=abc", "SVRL_TOKEN=zzz"]),
        process(8, &["SVRL_TOKEN=zzz", "SVRL_TOKEN=abc"]),
        process(9, &["SVRL_TOKEN", "abc"]),
        process(10, &["SVRL_TOKEN=abc=def"]),
    ];
    assert_eq!(find_by_token(&processes, "abc"), vec![1, 5, 8]);
    assert_eq!(find_by_token(&processes, "abc=def"), vec![10]);
    assert_eq!(find_by_token(&processes, ""), Vec::<u32>::new());
    assert_eq!(find_by_token(&vec![], "abc"), Vec::<u32>::new());
    assert_eq!(
        read_environ(&vec!["A=1".to_string(), "A=2".to_string()], "A"),
        Some("2".to_string())
    );
    assert_eq!(read_environ(&vec!["A".to_string()], "A"), None);
}

#[test]
fn wivrn_modifier_sets_the_runtime_variables() {
    let l = CompatLauncher::new();
    let mut plan = l.command_for(&app(), &proton(), "tok");
    WiVRnLaunchModifier::new().apply(&mut plan, "/run/user/1000");
    assert_eq!(
        plan.envs.get("PRESSURE_VESSEL_IMPORT_OPENXR_1_RUNTIMES"),
        Some(&"1".to_string())
    );
    assert_eq!(
        plan.envs.get("PRESSURE_VESSEL_FILESYSTEMS_RW"),
        Some(&"/run/user/1000/wivrn_comp_ipc:/run/user/1000/wivrn/comp_ipc:/run/user/1000/monado_comp_ipc".to_string())
    );
    assert_eq!(plan.envs.len(), 4);
    assert_eq!(plan.args.len(), 5);

    let mut plan = l.command_for(&app(), &proton(), "tok");
    let m = BackendModifier::new("/opt/wivrn/share/openxr/1/openxr_wivrn.json".to_string());
    assert!(m.apply(&mut plan, "/run/user/1000", "/home/u"));
    assert_eq!(
        plan.fs_steps,
        vec![
            FsStep::CreateDirAll("/home/u/.config/openxr/1".to_string()),
            FsStep::ReplaceSymlink {
                target: "/opt/wivrn/share/openxr/1/openxr_wivrn.json".to_string(),
                link: "/home/u/.config/openxr/1/active_runtime.json".to_string(),
            },
        ]
    );
    assert_eq!(plan.envs.len(), 4);
    let mut plan = l.command_for(&app(), &proton(), "tok");
    m.apply_env_vars(&mut plan, "/r");
    assert_eq!(plan.envs.len(), 4);
    assert!(plan.fs_steps.is_empty());

    let mut plan = l.command_for(&app(), &proton(), "tok");
    assert!(EnvisionLaunchModifier::new("/prefix".to_string()).apply(&mut plan, "/r", "/home/u"));
    assert_eq!(
        plan.fs_steps[1],
        FsStep::ReplaceSymlink {
            target: "/prefix/share/openxr/1/openxr_wivrn.json".to_string(),
            link: "/home/u/.config/openxr/1/active_runtime.json".to_string(),
        }
    );
}

#[test]
fn variables_modifier_overrides_in_order() {
    let l = CompatLauncher::new();
    let mut plan = l.command_for(&app(), &proton(), "tok");
    let mut vars = EnvMap::new();
    vars.insert("A".to_string(), "1".to_string());
    vars.insert("_".to_string(), "mine".to_string());
    EnvironmentVariablesModifier::new(vars).apply(&mut plan);
    assert_eq!(plan.envs.get("A"), Some(&"1".to_string()));
    assert_eq!(plan.envs.get("_"), Some(&"mine".to_string()));
    assert_eq!(plan.envs.get("SVRL_TOKEN"), Some(&"tok".to_string()));
}

#[test]
fn steam_modifier_sets_the_client_environment() {
    let l = CompatLauncher::new();
    let mut plan = l.command_for(&app(), &proton(), "tok");
    let context = SteamContext { steam_home: "/home/u/.steam".to_string(), user_name: "gordon".to_string() };
    assert!(SteamLaunchModifier::new().apply(&mut plan, &app(), &proton(), &context));
    let get = |k: &str| plan.envs.get(k).cloned().unwrap();
    assert_eq!(get("SteamAppId"), "450390");
    assert_eq!(get("SteamGameId"), "450390");
    assert_eq!(get("SteamOverlayGameId"), "450390");
    assert_eq!(get("SteamUser"), "gordon");
    assert_eq!(get("SteamEnv"), "1");
    assert_eq!(get("STEAM_COMPAT_APP_ID"), "450390");
    assert_eq!(get("STEAM_COMPAT_CLIENT_INSTALL_PATH"), "/home/u/.steam");
    assert_eq!(get("STEAM_COMPAT_DATA_PATH"), "/home/u/.steam/steamapps/compatdata/450390");
    assert_eq!(get("STEAM_COMPAT_FLAGS"), "search-cwd");
    assert_eq!(get("STEAM_COMPAT_LIBRARY_PATHS"), "/home/u/.steam/steamapps");
    assert_eq!(get("STEAM_COMPAT_INSTALL_PATH"), "/games/The Lab");
    assert_eq!(get("PWD"), "/games/The Lab");
    assert_eq!(get("STEAM_CLIENT_CONFIG_FILE"), "/home/u/.steam/steam.cfg");
    assert_eq!(
        get("AMD_VK_PIPELINE_CACHE_PATH"),
        "/home/u/.steam/steamapps/shadercache/450390/AMDv1"
    );
    assert_eq!(
        get("STEAM_FOSSILIZE_DUMP_PATH"),
        "/home/u/.steam/steamapps/shadercache/450390/fozpipelinesv6/steamapprun_pipeline_cache"
    );
    assert_eq!(
        get("STEAM_COMPAT_MOUNTS"),
        "/home/u/.steam/steamapps/common/SteamLinuxRuntime_sniper"
    );
    assert_eq!(
        get("STEAM_COMPAT_TOOL_PATHS"),
        "/tools/Proton 9:/home/u/.steam/steamapps/common/SteamLinuxRuntime_sniper"
    );
    assert_eq!(get("WINEDLLOVERRIDES"), "winhttp=n,b");
    assert_eq!(get("MESA_GLSL_CACHE_MAX_SIZE"), "5G");
    assert_eq!(get("SVRL_TOKEN"), "tok");
    assert_eq!(plan.envs.len(), 45);
    assert_eq!(plan.current_dir, "/games/The Lab");
    assert_eq!(
        plan.fs_steps,
        vec![
            FsStep::CreateDirAll("/home/u/.steam/steamapps/compatdata/450390".to_string()),
            FsStep::CreateDirAll("/home/u/.steam/steamapps/shadercache/450390/fozmediav1".to_string()),
            FsStep::CreateDirAll("/home/u/.steam/steamapps/shadercache/450390/fozpipelinesv6".to_string()),
            FsStep::CreateDirAll("/home/u/.steam/steamapps/shadercache/450390/DXVK_state_cache".to_string()),
            FsStep::CreateDirAll("/home/u/.steam/steamapps/shadercache/450390/AMDv1".to_string()),
        ]
    );

    // an application without an id gets a code of twenty digits
    let mut custom = app();
    custom.steam_id = 0;
    let mut plan = l.command_for(&custom, &proton(), "tok");
    assert!(SteamLaunchModifier::new().apply(&mut plan, &custom, &proton(), &context));
    assert_eq!(plan.envs.get("SteamAppId"), Some(&"0".to_string()));
    let id = plan.envs.get("SteamGameId").cloned().unwrap();
    assert_eq!(id.len(), 20);
    assert!(id.chars().all(|c| c.is_ascii_digit()));
    assert_eq!(id, generate_20_digit_code("bin/lab.exe"));

    // a tool whose path has no parent changes nothing
    let mut bad = proton();
    bad.executable_path = "/".to_string();
    let mut plan = l.command_for(&app(), &bad, "tok");
    assert!(!SteamLaunchModifier::new().apply(&mut plan, &app(), &bad, &context));
    assert_eq!(plan.envs.len(), 2);
}

#[test]
fn twenty_digit_codes() {
    assert_eq!(code_of(0), "00000000000000000000");
    assert_eq!(code_of(42), "00000000000000000042");
    assert_eq!(code_of(u64::MAX), "18446744073709551615");
    assert_ne!(generate_20_digit_code("a"), generate_20_digit_code("b"));
}

fn game(steam_app_id: Option<i64>, command_line: Option<&str>, proton: Option<&str>) -> Game {
    Game {
        id: "g".to_string(),
        title: "Custom".to_string(),
        cover: None,
        vr_backend: "wivrn".to_string(),
        steam_app_id,
        proton_version: proton.map(|s| s.to_string()),
        command_line: command_line.map(|s| s.to_string()),
        total_playtime_sec: 0,
    }
}

#[test]
fn target_is_resolved_from_the_catalog() {
    let here = || -> Result<String, String> { Ok("/here".to_string()) };
    let t = resolve_target(&game(Some(450390), None, Some("Proton 9")), vec![app()], vec![proton()], here()).unwrap();
    assert_eq!(t.app, app());
    assert_eq!(t.compat_version, proton());
    assert!(t.variables.is_none());

    assert_eq!(
        resolve_target(&game(Some(1), None, Some("Proton 9")), vec![app()], vec![proton()], here()).unwrap_err(),
        ResolveError::AppNotFound(1)
    );
    assert_eq!(
        resolve_target(&game(None, None, Some("Proton 9")), vec![app()], vec![proton()], here()).unwrap_err(),
        ResolveError::NotEnoughInformation
    );
    assert_eq!(
        resolve_target(&game(Some(450390), None, None), vec![app()], vec![proton()], here()).unwrap_err(),
        ResolveError::ProtonRequired
    );
    assert_eq!(
        resolve_target(&game(Some(450390), None, Some("GE")), vec![app()], vec![proton()], here()).unwrap_err(),
        ResolveError::ProtonMissing("GE".to_string())
    );
    assert_eq!(
        resolve_target(&game(None, Some("'oops"), Some("Proton 9")), vec![], vec![proton()], here()).unwrap_err(),
        ResolveError::CommandLine("Unclosed single quote".to_string())
    );
    // the application is looked for before the tool
    assert_eq!(
        resolve_target(&game(Some(1), None, None), vec![app()], vec![proton()], here()).unwrap_err(),
        ResolveError::AppNotFound(1)
    );

    let t = resolve_target(
        &game(Some(7), Some("WINEDEBUG=-all /opt/g/run.exe -w 'a b'"), Some("Proton 9")),
        vec![app()],
        vec![proton()],
        here(),
    )
    .unwrap();
    assert_eq!(
        t.app,
        SteamApp {
            steam_id: 7,
            is_vr_app: true,
            title: "Custom".to_string(),
            app_folder: "/opt/g".to_string(),
            executable: "/opt/g/run.exe".to_string(),
            arguments: vec!["-w".to_string(), "a b".to_string()],
            working_directory: "/opt/g".to_string(),
        }
    );
    assert_eq!(t.variables.unwrap().get("WINEDEBUG"), Some(&"-all".to_string()));
    let t = resolve_target(&game(None, Some("run"), Some("Proton 9")), vec![], vec![proton()], here()).unwrap();
    assert_eq!(t.app.steam_id, 0);
    assert_eq!(t.app.working_directory, "/here");
    assert!(t.variables.is_none());
}

#[test]
fn low_bits_of_ids() {
    assert_eq!(low_id_exec(0), 0);
    assert_eq!(low_id_exec(450390), 450390);
    assert_eq!(low_id_exec(0x1_0000_0005), 5);
    assert_eq!(low_id_exec(-1), u32::MAX);
    assert_eq!(low_id_exec(i64::MIN), 0);
    assert_eq!(low_id_exec(-0x1_0000_0000), 0);
    assert_eq!(low_id_exec(-0x1_0000_0001), u32::MAX);
}

#[test]
fn user_name_is_that_of_the_most_recent_user() {
    let user = |n: Option<&str>, r: Option<&str>| SteamUser {
        account_name: n.map(|s| s.to_string()),
        most_recent: r.map(|s| s.to_string()),
    };
    assert_eq!(get_user_name(&vec![]), Err(UserError::NoUsers));
    assert_eq!(
        get_user_name(&vec![user(Some("a"), Some("0")), user(Some("b"), Some("1")), user(Some("c"), Some("1"))]),
        Ok("b".to_string())
    );
    assert_eq!(get_user_name(&vec![user(Some("a"), None), user(Some("b"), Some("0"))]), Ok("a".to_string()));
    assert_eq!(
        get_user_name(&vec![user(Some("a"), None), user(None, Some("1"))]),
        Err(UserError::NoAccountName)
    );
}

// ---- the binary format ----

fn le32(n: u32) -> Vec<u8> {
    n.to_le_bytes().to_vec()
}

fn cstr(s: &str) -> Vec<u8> {
    let mut v = s.as_bytes().to_vec();
    v.push(0);
    v
}

fn object_bytes() -> Vec<u8> {
    // { "name": "Lab", "n": -2, "child": { "big": 2^40 }, "f": 1.5 }
    let mut b = Vec::new();
    b.push(1);
    b.extend(cstr("name"));
    b.extend(cstr("Lab"));
    b.push(2);
    b.extend(cstr("n"));
    b.extend((-2i32).to_le_bytes());
    b.push(0);
    b.extend(cstr("child"));
    b.push(7);
    b.extend(cstr("big"));
    b.extend((1u64 << 40).to_le_bytes());
    b.push(8);
    b.push(3);
    b.extend(cstr("f"));
    b.extend(1.5f32.to_bits().to_le_bytes());
    b.push(8);
    b
}

#[test]
fn objects_are_read() {
    let bytes = object_bytes();
    let (nodes, next) = read_object_at(&bytes, &vec![], 0).unwrap();
    assert_eq!(next, bytes.len());
    assert_eq!(
        nodes,
        vec![
            ("name".to_string(), KVValue::String("Lab".to_string())),
            ("n".to_string(), KVValue::Int32(-2)),
            (
                "child".to_string(),
                KVValue::Object(vec![("big".to_string(), KVValue::UInt64(1 << 40))])
            ),
            ("f".to_string(), KVValue::Float32(1.5f32.to_bits())),
        ]
    );
    let root = KVValue::Object(nodes);
    assert_eq!(root.index("child.big"), Some(&KVValue::UInt64(1 << 40)));
    assert_eq!(root.index("name").and_then(|v| v.as_string()), Some(&"Lab".to_string()));
    assert_eq!(root.index("n").and_then(|v| v.as_i32()), Some(-2));
    assert_eq!(root.index("child.none"), None);
    assert_eq!(root.index("name.deeper"), None);
    assert!(root.index("child").unwrap().as_object().is_some());
    assert!(root.get("name").unwrap().is_string_and(|s| s.starts_with('L')));
    assert!(!root.get("n").unwrap().is_string_and(|_| true));
    assert!(root.get("n").unwrap().is_i32_and(|n| n < 0));
    assert!(root.get("n").unwrap().parse_i32_and(|n| n == -2));
    assert!(KVValue::String("1".to_string()).parse_i32_and(|n| n == 1));
    assert!(!KVValue::String("x".to_string()).parse_i32_and(|_| true));
    assert_eq!(KVValue::String("+7".to_string()).parse_i32(), Some(7));
    assert!(KVValue::Empty.is_none());
    assert!(!root.is_none());
}

#[test]
fn later_nodes_win_and_pool_keys_are_indices() {
    let pool = vec!["zero".to_string(), "one".to_string()];
    let mut b = Vec::new();
    b.push(2);
    b.extend(le32(1));
    b.extend(5i32.to_le_bytes());
    b.push(2);
    b.extend(le32(1));
    b.extend(6i32.to_le_bytes());
    b.push(10);
    b.extend(le32(0));
    b.extend((-9i64).to_le_bytes());
    b.push(8);
    let (nodes, _) = read_object_at(&b, &pool, 0).unwrap();
    let root = KVValue::Object(nodes);
    assert_eq!(root.get("one"), Some(&KVValue::Int32(6)));
    assert_eq!(root.get("zero"), Some(&KVValue::Int64(-9)));

    let mut bad = vec![2u8];
    bad.extend(le32(2));
    bad.extend(5i32.to_le_bytes());
    bad.push(8);
    assert_eq!(read_object_at(&bad, &pool, 0).unwrap_err(), VdfError::StringIndexOutOfBounds);
}

#[test]
fn header_switches_the_end_marker() {
    let mut b = le32(0x564B4256);
    b.extend(le32(0xdeadbeef));
    b.push(2);
    b.extend(cstr("k"));
    b.extend(1i32.to_le_bytes());
    b.push(11);
    let (nodes, next) = read_object_at(&b, &vec![], 0).unwrap();
    assert_eq!(nodes, vec![("k".to_string(), KVValue::Int32(1))]);
    assert_eq!(next, b.len());
    // without the header, the alternate marker is no end
    let plain = vec![11u8, 0];
    assert_eq!(read_object_at(&plain, &vec![], 0).unwrap_err(), VdfError::UnsupportedNode);
}

#[test]
fn broken_objects_are_errors() {
    assert_eq!(read_object_at(&vec![], &vec![], 0).unwrap_err(), VdfError::UnexpectedEof);
    assert_eq!(read_object_at(&vec![8], &vec![], 5).unwrap_err(), VdfError::UnexpectedEof);
    assert_eq!(read_object_at(&vec![12], &vec![], 0).unwrap_err(), VdfError::InvalidNodeType);
    assert_eq!(read_object_at(&vec![1, b'k'], &vec![], 0).unwrap_err(), VdfError::UnexpectedEof);
    assert_eq!(read_object_at(&vec![2, b'k', 0, 1, 2], &vec![], 0).unwrap_err(), VdfError::UnexpectedEof);
    assert_eq!(read_object_at(&vec![5, b'k', 0], &vec![], 0).unwrap_err(), VdfError::UnsupportedNode);
    assert_eq!(read_object_at(&vec![9, b'k', 0], &vec![], 0).unwrap_err(), VdfError::UnsupportedNode);
    assert_eq!(read_object_at(&vec![1, 0xff, 0, 0], &vec![], 0).unwrap_err(), VdfError::InvalidUtf8);
    assert_eq!(read_object_at(&vec![2, 0, 1, 0, 0, 0], &vec![], 0).unwrap_err(), VdfError::UnexpectedEof);
    assert_eq!(read_object_at(&vec![8], &vec![], 0).unwrap(), (vec![], 1));
    assert_eq!(KV1BinaryNodeType::try_from(11), Some(KV1BinaryNodeType::AlternateEnd));
    assert_eq!(KV1BinaryNodeType::try_from(12), None);
    assert_eq!(EUniverse::try_from(1), Some(EUniverse::Public));
    assert_eq!(EUniverse::try_from(6), None);
}

#[test]
fn reader_moves_only_on_success() {
    let bytes = vec![b'h', b'i', 0, 8, 200];
    let pool = vec![];
    let mut r = KV1BinaryDeserializer::new(&bytes, 0, &pool);
    assert_eq!(r.read_null_terminated_utf8_string(), Ok("hi".to_string()));
    assert_eq!(r.current_position(), 3);
    assert_eq!(r.read_next_node_type(), Ok(KV1BinaryNodeType::End));
    assert_eq!(r.read_next_node_type(), Err(VdfError::InvalidNodeType));
    assert_eq!(r.current_position(), 4);
    assert_eq!(r.read_null_terminated_utf8_string(), Err(VdfError::UnexpectedEof));
    let mut r = KV1BinaryDeserializer::new(&bytes, 3, &pool);
    assert_eq!(r.read_object(), Ok(vec![]));
    assert_eq!(r.current_position(), 4);
}

fn database_bytes(extra_size: u32) -> Vec<u8> {
    let mut entry = Vec::new();
    entry.extend(le32(2)); // info_state
    entry.extend(le32(1_600_000_000)); // last_updated
    entry.extend(99u64.to_le_bytes()); // token
    entry.extend([1u8; 20]);
    entry.extend(le32(17)); // change_number
    entry.extend([2u8; 20]);
    // object with pool keys: { pool[0]: { pool[1]: "x" } }
    entry.push(0);
    entry.extend(le32(0));
    entry.push(1);
    entry.extend(le32(1));
    entry.extend(cstr("x"));
    entry.push(8);
    entry.push(8);

    let mut b = Vec::new();
    b.extend(le32(123094057));
    b.extend(le32(1));
    let table_offset_at = b.len();
    b.extend(0u64.to_le_bytes());
    b.extend(le32(450390));
    b.extend(le32(entry.len() as u32 + extra_size));
    b.extend(&entry);
    b.extend(le32(0));
    let table = b.len() as u64;
    b[table_offset_at..table_offset_at + 8].copy_from_slice(&table.to_le_bytes());
    b.extend(le32(2));
    b.extend(cstr("appinfo"));
    b.extend(b"name"); // the last string may end with the bytes
    b
}

#[test]
fn database_is_loaded() {
    let db = AppInfoDatabase::load_from(&database_bytes(0)).unwrap();
    assert_eq!(db.universe, EUniverse::Public);
    assert_eq!(db.entries.len(), 1);
    let e = &db.entries[0];
    assert_eq!(e.app_id, 450390);
    assert_eq!(e.info_state, 2);
    assert_eq!(e.last_updated, 1_600_000_000);
    assert_eq!(e.token, 99);
    assert_eq!(e.text_hash, vec![1u8; 20]);
    assert_eq!(e.change_number, 17);
    assert_eq!(e.binary_hash, vec![2u8; 20]);
    assert_eq!(
        e.data,
        vec![(
            "appinfo".to_string(),
            KVValue::Object(vec![("name".to_string(), KVValue::String("x".to_string()))])
        )]
    );
    assert_eq!(db.app_by_id(450390).map(|e| e.token), Some(99));
    assert!(db.app_by_id(1).is_none());
}

#[test]
fn broken_databases_are_errors() {
    assert_eq!(AppInfoDatabase::load_from(&vec![]).unwrap_err(), VdfError::UnexpectedEof);
    let mut b = database_bytes(0);
    b[0] = 0;
    assert_eq!(AppInfoDatabase::load_from(&b).unwrap_err(), VdfError::BadMagic);
    let mut b = database_bytes(0);
    b[4] = 9;
    assert_eq!(AppInfoDatabase::load_from(&b).unwrap_err(), VdfError::InvalidUniverse);
    assert_eq!(AppInfoDatabase::load_from(&database_bytes(1)).unwrap_err(), VdfError::SizeMismatch);
    let mut b = database_bytes(0);
    b.truncate(40);
    assert_eq!(AppInfoDatabase::load_from(&b).unwrap_err(), VdfError::UnexpectedEof);
}

#[test]
fn entry_data_is_read_in_place() {
    let bytes = object_bytes();
    let mut e = AppInfoEntry {
        app_id: 1,
        info_state: 0,
        last_updated: 0,
        token: 0,
        text_hash: vec![0; 20],
        change_number: 0,
        binary_hash: vec![0; 20],
        data: vec![],
    };
    assert_eq!(e.deserialize_kv_data(&bytes, 0, &vec![]), Ok(bytes.len()));
    assert_eq!(e.data.len(), 4);
    assert_eq!(e.deserialize_kv_data(&bytes, 1, &vec![]), Err(VdfError::InvalidNodeType));
    assert_eq!(e.data.len(), 4);
}

fn s(v: &str) -> KVValue {
    KVValue::String(v.to_string())
}

fn obj(v: Vec<(&str, KVValue)>) -> KVValue {
    KVValue::Object(v.into_iter().map(|(k, v)| (k.to_string(), v)).collect())
}

#[test]
fn installed_apps_are_described_by_their_windows_launch_config() {
    let data = vec![(
        "appinfo".to_string(),
        obj(vec![
            ("common", obj(vec![("openvrsupport", s("1"))])),
            (
                "config",
                obj(vec![(
                    "launch",
                    obj(vec![
                        ("0", obj(vec![("executable", s("lab.sh")), ("config", obj(vec![("oslist", s("linux"))]))])),
                        (
                            "1",
                            obj(vec![
                                ("executable", s("bin\\win64\\lab.exe")),
                                ("arguments", s("-vr -fast")),
                                ("workingdir", s("bin\\win64")),
                                ("config", obj(vec![("oslist", s("windows"))])),
                            ]),
                        ),
                    ]),
                )]),
            ),
        ]),
    )];
    let installed = InstalledApp {
        app_id: 450390,
        install_dir: "The Lab".to_string(),
        name: Some("The Lab".to_string()),
        library_path: "/lib".to_string(),
    };
    let steam = SteamInterface::new();
    let app = steam.describe_app(&installed, &data).unwrap().unwrap();
    assert_eq!(
        app,
        SteamApp {
            steam_id: 450390,
            is_vr_app: true,
            title: "The Lab".to_string(),
            app_folder: "/lib/steamapps/common/The Lab".to_string(),
            executable: "bin/win64/lab.exe".to_string(),
            arguments: vec!["-vr".to_string(), "-fast".to_string()],
            working_directory: "/lib/steamapps/common/The Lab/bin/win64".to_string(),
        }
    );
    assert_eq!(steam.describe_app(&installed, &vec![]), Err(CatalogError::MissingAppInfo));
    let nameless = InstalledApp { name: None, ..InstalledApp {
        app_id: 450390,
        install_dir: "The Lab".to_string(),
        name: None,
        library_path: "/lib".to_string(),
    } };
    assert_eq!(steam.describe_app(&nameless, &data), Err(CatalogError::MissingName));
    let no_launch = vec![("appinfo".to_string(), obj(vec![("common", obj(vec![]))]))];
    assert_eq!(steam.describe_app(&installed, &no_launch), Ok(None));
    let linux_only = vec![(
        "appinfo".to_string(),
        obj(vec![(
            "config",
            obj(vec![(
                "launch",
                obj(vec![("0", obj(vec![("executable", s("a")), ("config", obj(vec![("oslist", s("linux"))]))]))]),
            )]),
        )]),
    )];
    assert_eq!(steam.describe_app(&installed, &linux_only), Ok(None));
    // a configuration that names no system counts for Windows
    let unnamed = vec![(
        "appinfo".to_string(),
        obj(vec![("config", obj(vec![("launch", obj(vec![("0", obj(vec![("executable", s("a.exe"))]))]))]))]),
    )];
    let app = steam.describe_app(&installed, &unnamed).unwrap().unwrap();
    assert_eq!(app.executable, "a.exe");
    assert!(!app.is_vr_app);
    assert!(app.arguments.is_empty());
    assert_eq!(app.working_directory, "/lib/steamapps/common/The Lab");

    let p = steam.describe_proton(&nameless);
    assert_eq!(p.name, "The Lab");
    assert_eq!(p.steam_id, Some(450390));
    assert_eq!(p.executable_path, "/lib/steamapps/common/The Lab/proton");
    let p = steam.describe_external_proton("/home/u/.steam/compatibilitytools.d/GE", "GE".to_string());
    assert_eq!(p.steam_id, None);
    assert_eq!(p.executable_path, "/home/u/.steam/compatibilitytools.d/GE/proton");
    assert!(steam.seen_before(&vec![1, 2], 2));
    assert!(!steam.seen_before(&vec![1, 2], 3));
    assert_eq!(steam.find_app(vec![app], 450390).map(|a| a.executable), Some("a.exe".to_string()));
    assert!(steam.find_proton_version(vec![], "x").is_none());
}

#[test]
fn resolve_errors_have_their_messages() {
    assert_eq!(
        ResolveError::AppNotFound(-5).message(),
        "Could not find Steam app with id -5"
    );
    assert_eq!(
        ResolveError::AppNotFound(620980).message(),
        "Could not find Steam app with id 620980"
    );
    assert_eq!(
        ResolveError::AppNotFound(i64::MIN).message(),
        "Could not find Steam app with id -9223372036854775808"
    );
    assert_eq!(
        ResolveError::CommandLine("Unclosed quote".to_string()).message(),
        "Could not parse launch command: Unclosed quote"
    );
    assert_eq!(
        ResolveError::NotEnoughInformation.message(),
        "Not enough information to launch the game!"
    );
    assert_eq!(
        ResolveError::ProtonRequired.message(),
        "Running games without proton is currently not supported!"
    );
    assert_eq!(
        ResolveError::ProtonMissing("GE-Proton9".to_string()).message(),
        "Missing proton version: GE-Proton9!"
    );
}

#[test]
fn resolve_errors_end_the_launch_as_catalog_failures() {
    assert_eq!(
        ResolveError::ProtonMissing("GE-Proton9".to_string()).launch_error(),
        vr_launcher::app_state::LaunchError::CatalogResolutionFailed(
            "Missing proton version: GE-Proton9!".to_string()
        )
    );
    assert_eq!(
        ResolveError::AppNotFound(7).launch_error(),
        vr_launcher::app_state::LaunchError::CatalogResolutionFailed(
            "Could not find Steam app with id 7".to_string()
        )
    );
}

#[test]
fn preflight_errors_end_the_launch_as_missing_paths() {
    assert_eq!(
        PreflightError::WorkingDirectoryMissing.launch_error(),
        vr_launcher::app_state::LaunchError::PreflightPathMissing(
            "The specified working directory does not exist.".to_string()
        )
    );
    assert_eq!(
        PreflightError::CompatToolMissing.launch_error(),
        vr_launcher::app_state::LaunchError::PreflightPathMissing(
            "The specified compat tool's path does not exist.".to_string()
        )
    );
    assert_eq!(
        PreflightError::ExecutableMissing.message(),
        "The specified app executable does not exist."
    );
    assert_eq!(
        PreflightError::InstallDirectoryMissing.message(),
        "The specified installation directory does not exist."
    );
}

#[test]
fn null_handle_has_a_fresh_token_in_the_form_of_a_random_uuid() {
    let h = ProcessHandle::null();
    assert_eq!(h.get_pid(), 0);
    let token: Vec<char> = h.get_process_token().chars().collect();
    assert_eq!(token.len(), 36);
    for (i, c) in token.iter().enumerate() {
        if i == 8 || i == 13 || i == 18 || i == 23 {
            assert_eq!(*c, '-');
        } else {
            assert!(matches!(*c, '0'..='9' | 'a'..='f'));
        }
    }
    assert_eq!(token[14], '4');
    assert!(matches!(token[19], '8' | '9' | 'a' | 'b'));
    assert_ne!(
        ProcessHandle::null().get_process_token(),
        ProcessHandle::null().get_process_token()
    );
}
