use vr_launcher::adb::adb_device::{AdbVrDevice, UsbDeviceInfo};
use vr_launcher::app_state::LaunchError;
use vr_launcher::audio_api::{
    audio_wait_step, parse_endpoint_kind, AudioDevice, AudioState, AudioWait, EndpointKind,
};
use vr_launcher::backends::envision::config::{
    EnvisionConfiguration, EnvisionUserProfile, Environment, OvrComp,
};
use vr_launcher::backends::envision::envision_backend::{EnvisionBackend, EnvisionError};
use vr_launcher::backends::wivrn::wivrn_backend::{
    BackendError, DeviceCommand, ProcessProbe, StartPlan, WiVRnBackend,
};
use vr_launcher::backends::wivrn::wivrn_launch_modifier::{
    choose_existing, locate_server_binary_path, locate_wivrn_manifest, ready_marker_path,
};
use vr_launcher::backends::wivrn::wivrn_log_handler::WiVRnLogHandler;
use vr_launcher::backends::{resolve_backend, BackendStartInfo, BackendType};
use vr_launcher::overlay::WlxOverlayManager;
use vr_launcher::routes::audio::{clamp_volume, find_endpoint, parse_endpoint};

fn headset() -> AdbVrDevice {
    AdbVrDevice::try_from(UsbDeviceInfo {
        id_vendor: Some("2833".to_string()),
        id_product: Some("0186".to_string()),
        serial: Some("ABC123".to_string()),
        manufacturer: Some("Oculus".to_string()),
        product: Some("Quest 2".to_string()),
        dev_path: Some("/p".to_string()),
    })
    .unwrap()
}

#[test]
fn backend_without_process_is_started_anew() {
    let b = WiVRnBackend::new("/opt/wivrn/bin/wivrn-server".to_string());
    assert!(!b.has_process());
    assert_eq!(b.server_binary_path(), "/opt/wivrn/bin/wivrn-server");
    for probe in [ProcessProbe::Running, ProcessProbe::Exited, ProcessProbe::Failed] {
        assert_eq!(b.start_async(probe), StartPlan::Spawn);
    }
    let info = b.finish_start(Some(headset()), StartPlan::Spawn).unwrap();
    assert!(info.was_restarted);
    assert_eq!(info.vr_device_serial, "ABC123");
}

#[test]
fn backend_with_exited_process_is_started_anew() {
    let mut b = WiVRnBackend::new("x".to_string());
    b.server_spawned(77);
    assert!(b.has_process());
    let plan = b.start_async(ProcessProbe::Exited);
    assert_eq!(plan, StartPlan::Spawn);
    assert!(b.finish_start(Some(headset()), plan).unwrap().was_restarted);
}

#[test]
fn backend_with_live_process_is_kept() {
    let mut b = WiVRnBackend::new("x".to_string());
    b.server_spawned(77);
    let plan = b.start_async(ProcessProbe::Running);
    assert_eq!(plan, StartPlan::Reuse);
    let info = b.finish_start(Some(headset()), plan).unwrap();
    assert_eq!(
        info,
        BackendStartInfo {
            vr_device_serial: "ABC123".to_string(),
            vr_device_ip: None,
            was_restarted: false
        }
    );
    assert_eq!(b.start_async(ProcessProbe::Failed), StartPlan::Reuse);
    assert_eq!(b.finish_start(None, plan), Err(BackendError::NoActiveDevice));
}

#[test]
fn backend_that_exits_within_grace_period_fails() {
    let b = WiVRnBackend::new("x".to_string());
    assert_eq!(
        b.grace_elapsed(ProcessProbe::Exited, Some("fatal: cannot bind socket".to_string())),
        Err(BackendError::StartFailed {
            last_error_line: Some("fatal: cannot bind socket".to_string())
        })
    );
    assert_eq!(
        b.grace_elapsed(ProcessProbe::Exited, None),
        Err(BackendError::StartFailed { last_error_line: None })
    );
    assert_eq!(b.grace_elapsed(ProcessProbe::Running, None), Ok(()));
    assert_eq!(b.grace_elapsed(ProcessProbe::Failed, None), Ok(()));
}

#[test]
fn backend_errors_end_the_launch() {
    assert_eq!(
        BackendError::StartFailed { last_error_line: Some("fatal: cannot bind socket".to_string()) }
            .launch_error(),
        LaunchError::BackendStartFailed("fatal: cannot bind socket".to_string())
    );
    assert_eq!(
        BackendError::StartFailed { last_error_line: None }.launch_error(),
        LaunchError::BackendStartFailed("Unknown error".to_string())
    );
    assert_eq!(BackendError::NoActiveDevice.launch_error(), LaunchError::DeviceUnreachable);
}

#[test]
fn reconnect_and_stop_are_idempotent() {
    let mut b = WiVRnBackend::new("x".to_string());
    assert!(b.reconnect_async().is_empty());
    b.server_spawned(5);
    let steps = vec![DeviceCommand::OpenTcpTunnel(9757), DeviceCommand::StartClient];
    assert_eq!(b.reconnect_async(), steps);
    assert_eq!(b.reconnect_async(), steps);
    assert_eq!(b.stop(), Some(5));
    assert_eq!(b.stop(), None);
    assert!(b.reconnect_async().is_empty());
    assert_eq!(WiVRnBackend::server_arguments(), vec!["--early-active-runtime"]);
    assert_eq!(WiVRnBackend::process_name(), "wivrn-server");
}

#[test]
fn audio_devices_are_matched_by_description() {
    let b = WiVRnBackend::new("x".to_string());
    let mut d = AudioDevice {
        id: 1,
        name: "n".to_string(),
        description: "WiVRn (Quest 2)".to_string(),
        is_default: false,
        pod_bytes: None,
        volume: 100,
        is_muted: false,
    };
    assert!(b.is_matching_audio_device(&d));
    d.description = "Built-in Audio".to_string();
    assert!(!b.is_matching_audio_device(&d));
}

#[test]
fn log_handler_asks_for_reconnect() {
    let h = WiVRnLogHandler {};
    assert!(h.handle_message("[E] Exception in network thread: Socket shutdown (x)"));
    assert!(!h.handle_message("Exception in network thread: timeout"));
    assert!(!h.handle_message(""));
}

#[test]
fn backend_names() {
    assert_eq!(resolve_backend("wivrn"), Some(BackendType::WiVRn));
    assert_eq!(resolve_backend("WIVRN"), Some(BackendType::WiVRn));
    assert_eq!(resolve_backend("alvr"), None);
    assert_eq!(resolve_backend(""), None);
}

#[test]
fn manifest_and_binary_are_located() {
    let c = locate_wivrn_manifest("/opt/wivrn/bin/wivrn-server").unwrap();
    assert_eq!(
        c,
        vec![
            "/opt/wivrn/openxr_wivrn-dev.json",
            "/opt/wivrn/share/openxr/1/openxr_wivrn.json",
            "/usr/share/openxr/1/openxr_wivrn.json",
        ]
    );
    assert_eq!(locate_wivrn_manifest("/"), None);
    assert_eq!(locate_wivrn_manifest("server"), None);
    assert_eq!(choose_existing(c.clone(), &vec![false, true, true]), Some(c[1].clone()));
    assert_eq!(choose_existing(c, &vec![false, false, false]), None);
    assert_eq!(
        locate_server_binary_path(Some("/a".to_string()), true, Some("/b".to_string())),
        Some("/a".to_string())
    );
    assert_eq!(
        locate_server_binary_path(Some("/a".to_string()), false, Some("/b".to_string())),
        Some("/b".to_string())
    );
    assert_eq!(locate_server_binary_path(None, true, None), None);
    assert_eq!(ready_marker_path("/run/user/1000"), "/run/user/1000/wivrn/comp_ipc");
}

#[test]
fn overlay_is_replaced_and_stopped() {
    let mut o = WlxOverlayManager::new();
    assert_eq!(o.start().kill_first, None);
    o.started(10);
    assert_eq!(o.start().kill_first, Some(10));
    o.started(11);
    assert_eq!(o.stop(), Some(11));
    assert_eq!(o.stop(), None);
    assert_eq!(WlxOverlayManager::binary(), "wlx-overlay-s");
    assert_eq!(WlxOverlayManager::arguments(), vec!["--replace", "--openxr"]);
}

#[test]
fn audio_wait_is_bounded() {
    assert_eq!(audio_wait_step(0, true, true), AudioWait::Found);
    assert_eq!(audio_wait_step(10, true, true), AudioWait::Found);
    assert_eq!(audio_wait_step(3, false, false), AudioWait::Continue);
    assert_eq!(audio_wait_step(4, false, false), AudioWait::GiveUp);
    assert_eq!(audio_wait_step(4, true, false), AudioWait::GiveUp);
    assert_eq!(audio_wait_step(1, false, true), AudioWait::Continue);
}

#[test]
fn audio_state_follows_the_graph() {
    let mut s = AudioState::new();
    assert_eq!(
        s.node_added(5, "Audio/Sink", "sink.a".to_string(), "Speakers".to_string()),
        Some(EndpointKind::Sink)
    );
    assert_eq!(
        s.node_added(6, "Audio/Source", "src.a".to_string(), "Mic".to_string()),
        Some(EndpointKind::Source)
    );
    assert_eq!(s.node_added(7, "Video/Source", "cam".to_string(), "Cam".to_string()), None);
    assert_eq!(s.node_added(8, "Audio/Sink", "sink.b".to_string(), "WiVRn".to_string()), Some(EndpointKind::Sink));
    assert_eq!(s.get_output_devices().len(), 2);
    assert_eq!(s.get_input_devices().len(), 1);
    assert_eq!(s.get_output_devices()[0].volume, 100);

    assert_eq!(s.default_changed(EndpointKind::Sink, "sink.b"), Some(8));
    assert_eq!(s.get_default_output_device(), Some(8));
    assert!(!s.get_output_devices()[0].is_default);
    assert!(s.get_output_devices()[1].is_default);
    assert_eq!(s.default_changed(EndpointKind::Sink, "sink.a"), Some(5));
    assert!(s.get_output_devices()[0].is_default);
    assert!(!s.get_output_devices()[1].is_default);
    assert_eq!(s.default_changed(EndpointKind::Source, "nope"), None);
    assert_eq!(s.get_default_input_device(), None);

    assert_eq!(s.volume_changed(6, 40, true, &vec![1, 2]), Some(EndpointKind::Source));
    assert_eq!(s.get_input_devices()[0].volume, 40);
    assert!(s.get_input_devices()[0].is_muted);
    assert_eq!(s.get_input_devices()[0].pod_bytes, Some(vec![1, 2]));
    assert_eq!(s.volume_changed(8, 10, false, &vec![]), Some(EndpointKind::Sink));
    assert_eq!(s.volume_changed(99, 10, false, &vec![]), None);

    s.node_removed(5);
    assert_eq!(s.get_output_devices().len(), 1);
    assert_eq!(s.get_output_devices()[0].id, 8);
    s.node_removed(5);
    assert_eq!(s.get_output_devices().len(), 1);

    assert_eq!(find_endpoint(s.get_output_devices(), 8).map(|d| d.id), Some(8));
    assert!(find_endpoint(s.get_output_devices(), 5).is_none());
}

#[test]
fn endpoint_names() {
    assert_eq!(parse_endpoint("inputs"), Some(EndpointKind::Source));
    assert_eq!(parse_endpoint("outputs"), Some(EndpointKind::Sink));
    assert_eq!(parse_endpoint("other"), None);
    assert_eq!(parse_endpoint_kind("Audio/Sink"), Some(EndpointKind::Sink));
    assert_eq!(clamp_volume(100), 100);
    assert_eq!(clamp_volume(101), 100);
    assert_eq!(clamp_volume(7), 7);
}

fn profile(uuid: &str, prefix: &str) -> EnvisionUserProfile {
    EnvisionUserProfile {
        uuid: uuid.to_string(),
        name: "p".to_string(),
        xrservice_type: "wivrn".to_string(),
        xrservice_path: String::new(),
        xrservice_repo: None,
        xrservice_branch: None,
        opencomposite_path: String::new(),
        opencomposite_repo: "null".to_string(),
        opencomposite_branch: "null".to_string(),
        ovr_comp: OvrComp { mod_type: String::new(), repo: None, branch: None, path: String::new() },
        environment: Environment {
            ld_library_path: String::new(),
            u_pacing_app_use_min_frame_period: String::new(),
            xrt_curated_gui: String::new(),
            xrt_debug_gui: String::new(),
        },
        prefix: prefix.to_string(),
        can_be_built: false,
        editable: false,
        pull_on_build: false,
        lighthouse_driver: String::new(),
        xrservice_launch_options: String::new(),
        skip_dependency_check: false,
    }
}

fn config() -> EnvisionConfiguration {
    EnvisionConfiguration {
        selected_profile_uuid: String::new(),
        user_profiles: vec![
            profile("11111111-2222-3333-4444-555555555555", "/a"),
            profile("076a4450-a365-4fd0-b9df-1e8672792c8f", "/b"),
        ],
    }
}

#[test]
fn envision_profile_is_selected_by_uuid() {
    assert_eq!(EnvisionBackend::select_profile("", config()).unwrap_err(), EnvisionError::MissingProfile);
    assert_eq!(
        EnvisionBackend::select_profile("not-a-uuid", config()).unwrap_err(),
        EnvisionError::InvalidUuid
    );
    assert_eq!(
        EnvisionBackend::select_profile("00000000-0000-0000-0000-000000000000", config()).unwrap_err(),
        EnvisionError::ProfileNotFound
    );
    // the uuid is compared in its usual form, whatever form it was given in
    let p = EnvisionBackend::select_profile("076A4450A3654FD0B9DF1E8672792C8F", config()).unwrap();
    assert_eq!(p.prefix, "/b");
    assert_eq!(EnvisionBackend::server_binary(&p), "/b/bin/wivrn-server");
    let b = EnvisionBackend::new(p, "/b/bin/wivrn-server".to_string());
    assert!(!b.wivrn_backend.has_process());
    assert_eq!(b.envision_profile.prefix, "/b");
}
