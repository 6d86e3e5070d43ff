use vr_launcher::app_state::{
    active_message, inactive_message, Action, AppState, LaunchError, LaunchEvent, LaunchOutcome, SessionPhase, StepOutcome,
};
use vr_launcher::audio_api::AudioDevice;
use vr_launcher::backends::{BackendStartInfo, BackendType};
use vr_launcher::models::Game;
use vr_launcher::routes::game_state::{
    answer_duplicate, answer_launch, may_reload_backend, LaunchQuery, Reply,
};
use vr_launcher::routes::frontend::{
    asset_for, get_asset, get_favicon, get_mime_type, mime_type_for, AssetRequest,
};
use vr_launcher::steam::launcher::ProcessHandle;

fn game(backend: &str) -> Game {
    Game {
        id: "01JXVDSX3DZ4TACG949D1Z14XW".to_string(),
        title: "Test Game".to_string(),
        cover: None,
        vr_backend: backend.to_string(),
        steam_app_id: Some(450390),
        proton_version: Some("Proton 9".to_string()),
        command_line: None,
        total_playtime_sec: 0,
    }
}

fn info(serial: &str, was_restarted: bool) -> BackendStartInfo {
    BackendStartInfo {
        vr_device_serial: serial.to_string(),
        vr_device_ip: None,
        was_restarted,
    }
}

fn device(id: u32, name: &str) -> AudioDevice {
    AudioDevice {
        id,
        name: name.to_string(),
        description: "WiVRn".to_string(),
        is_default: false,
        pod_bytes: None,
        volume: 100,
        is_muted: false,
    }
}

fn launch_to_audio_wait(state: &mut AppState, token: &str, restarted: bool) {
    let (outcome, actions) = state.launch_game_async(token, game("wivrn"));
    assert_eq!(outcome, LaunchOutcome::Accepted);
    assert_eq!(actions, vec![Action::OpenLogSession]);
    assert_eq!(state.phase(), SessionPhase::Starting);
    let (o, a) = state.advance(LaunchEvent::LogsRotated(Ok(())));
    assert_eq!(o, StepOutcome::Continue);
    assert_eq!(a, vec![Action::ResolveTarget]);
    assert_eq!(state.backend_type(), BackendType::WiVRn);
    let (o, a) = state.advance(LaunchEvent::TargetResolved(Ok(())));
    assert_eq!(o, StepOutcome::Continue);
    assert_eq!(a, vec![Action::StartBackend(BackendType::WiVRn)]);
    let (o, a) = state.advance(LaunchEvent::BackendStarted(Ok(info("ABC123", restarted))));
    assert_eq!(o, StepOutcome::Continue);
    assert_eq!(a, vec![Action::CheckReadiness]);
    let (o, a) = state.advance(LaunchEvent::ReadinessChecked(Ok(true)));
    assert_eq!(o, StepOutcome::Continue);
    assert_eq!(a, vec![Action::SpawnGame]);
    let handle = ProcessHandle::new(4242, "token-1".to_string());
    let (o, a) = state.advance(LaunchEvent::GameSpawned(Ok(handle)));
    assert_eq!(o, StepOutcome::Continue);
    assert_eq!(a, vec![Action::WaitForAudio]);
    assert_eq!(state.phase(), SessionPhase::Starting);
}

#[test]
fn scenario_launch_then_reject_then_exit() {
    let mut state = AppState::new();
    assert_eq!(state.phase(), SessionPhase::Idle);
    launch_to_audio_wait(&mut state, "tok-1", true);
    let (o, a) = state.advance(LaunchEvent::AudioWaited {
        devices: Some((device(1, "out"), device(2, "in"))),
        now_epoch: 1_700_000_000,
    });
    assert_eq!(o, StepOutcome::Launched);
    assert_eq!(
        a,
        vec![
            Action::SetDefaultOutput(device(1, "out")),
            Action::SetDefaultInput(device(2, "in")),
            Action::StartOverlay,
            Action::PublishActive,
        ]
    );
    assert_eq!(state.phase(), SessionPhase::Active);
    {
        let session = state.active_game_session().as_ref().unwrap();
        assert_eq!(session.vr_device_serial, "ABC123");
        assert_eq!(session.start_time_epoch, 1_700_000_000);
        assert_eq!(session.process_handle.get_pid(), 4242);
        assert_eq!(session.process_handle.get_process_token(), "token-1");
        assert_eq!(session.game.title, "Test Game");
    }

    // any other token is refused while the game runs
    let (outcome, actions) = state.launch_game_async("tok-2", game("wivrn"));
    assert_eq!(outcome, LaunchOutcome::SessionAlreadyActive);
    assert!(actions.is_empty());
    assert_eq!(state.phase(), SessionPhase::Active);
    // the same token again is a duplicate
    let (outcome, actions) = state.launch_game_async("tok-1", game("wivrn"));
    assert_eq!(outcome, LaunchOutcome::Duplicate);
    assert!(actions.is_empty());
    // and so is the refused token, which was remembered
    let (outcome, _) = state.launch_game_async("tok-2", game("wivrn"));
    assert_eq!(outcome, LaunchOutcome::Duplicate);

    // the game exits: teardown, with the backend stopped exactly once
    let actions = state.game_process_died();
    assert_eq!(
        actions,
        vec![Action::PublishInactive, Action::StopOverlay, Action::StopBackend]
    );
    assert_eq!(actions.iter().filter(|a| **a == Action::StopBackend).count(), 1);
    assert_eq!(state.phase(), SessionPhase::Idle);
    assert!(state.active_game_session().is_none());

    // a fresh token is accepted again, and rotates the open log session
    let (outcome, actions) = state.launch_game_async("tok-3", game("wivrn"));
    assert_eq!(outcome, LaunchOutcome::Accepted);
    assert_eq!(actions, vec![Action::ShutdownLogSession, Action::OpenLogSession]);
}

#[test]
fn scenario_audio_wait_times_out() {
    let mut state = AppState::new();
    launch_to_audio_wait(&mut state, "tok-1", false);
    let (o, a) = state.advance(LaunchEvent::AudioWaited { devices: None, now_epoch: 5 });
    assert_eq!(o, StepOutcome::Launched);
    assert_eq!(a, vec![Action::PublishActive]);
    assert!(!a.iter().any(|x| matches!(x, Action::SetDefaultOutput(_) | Action::SetDefaultInput(_))));
    assert_eq!(state.phase(), SessionPhase::Active);
}

#[test]
fn scenario_backend_exits_within_grace_period() {
    let mut state = AppState::new();
    let (outcome, _) = state.launch_game_async("tok-1", game("wivrn"));
    assert_eq!(outcome, LaunchOutcome::Accepted);
    state.advance(LaunchEvent::LogsRotated(Ok(())));
    state.advance(LaunchEvent::TargetResolved(Ok(())));
    let (o, a) = state.advance(LaunchEvent::BackendStarted(Err(
        LaunchError::BackendStartFailed("fatal: cannot bind socket".to_string()),
    )));
    assert_eq!(
        o,
        StepOutcome::Failed(LaunchError::BackendStartFailed(
            "fatal: cannot bind socket".to_string()
        ))
    );
    assert_eq!(a, vec![Action::ShutdownLogSession]);
    assert!(state.active_game_session().is_none());
    assert!(state.pending_launch().is_none());
    assert_eq!(state.phase(), SessionPhase::Idle);
}

#[test]
fn unsupported_backend_is_a_terminal_error() {
    let mut state = AppState::new();
    let (outcome, _) = state.launch_game_async("t", game("alvr"));
    assert_eq!(outcome, LaunchOutcome::Accepted);
    let (o, a) = state.advance(LaunchEvent::LogsRotated(Ok(())));
    assert_eq!(o, StepOutcome::Failed(LaunchError::BackendUnsupported));
    assert_eq!(a, vec![Action::ShutdownLogSession]);
    assert_eq!(state.phase(), SessionPhase::Idle);
}

#[test]
fn backend_name_is_matched_in_any_case() {
    let mut state = AppState::new();
    state.launch_game_async("t", game("WiVRn"));
    let (o, _) = state.advance(LaunchEvent::LogsRotated(Ok(())));
    assert_eq!(o, StepOutcome::Continue);
}

#[test]
fn failure_after_spawn_rolls_everything_back() {
    let mut state = AppState::new();
    state.launch_game_async("t", game("wivrn"));
    state.advance(LaunchEvent::LogsRotated(Ok(())));
    state.advance(LaunchEvent::TargetResolved(Ok(())));
    state.advance(LaunchEvent::BackendStarted(Ok(info("S", true))));
    let (o, a) = state.advance(LaunchEvent::ReadinessChecked(Ok(false)));
    assert_eq!(o, StepOutcome::Failed(LaunchError::DeviceNotReady));
    assert_eq!(a, vec![Action::StopBackend, Action::ShutdownLogSession]);
    assert_eq!(state.phase(), SessionPhase::Idle);

    state.launch_game_async("u", game("wivrn"));
    state.advance(LaunchEvent::LogsRotated(Ok(())));
    state.advance(LaunchEvent::TargetResolved(Ok(())));
    state.advance(LaunchEvent::BackendStarted(Ok(info("S", true))));
    state.advance(LaunchEvent::ReadinessChecked(Ok(true)));
    let (o, a) = state.advance(LaunchEvent::GameSpawned(Err(
        LaunchError::PreflightPathMissing("The specified app executable does not exist.".to_string()),
    )));
    assert!(matches!(o, StepOutcome::Failed(LaunchError::PreflightPathMissing(_))));
    assert_eq!(a, vec![Action::StopBackend, Action::ShutdownLogSession]);
}

#[test]
fn events_that_are_not_awaited_change_nothing() {
    let mut state = AppState::new();
    let (o, a) = state.advance(LaunchEvent::LogsRotated(Ok(())));
    assert_eq!(o, StepOutcome::Ignored);
    assert!(a.is_empty());
    state.launch_game_async("t", game("wivrn"));
    let (o, a) = state.advance(LaunchEvent::TargetResolved(Ok(())));
    assert_eq!(o, StepOutcome::Ignored);
    assert!(a.is_empty());
    assert_eq!(state.phase(), SessionPhase::Starting);
}

#[test]
fn launch_is_refused_while_another_is_starting() {
    let mut state = AppState::new();
    state.launch_game_async("a", game("wivrn"));
    let (outcome, actions) = state.launch_game_async("b", game("wivrn"));
    assert_eq!(outcome, LaunchOutcome::SessionAlreadyActive);
    assert!(actions.is_empty());
}

#[test]
fn running_backend_is_stopped_before_it_is_started_again() {
    let mut state = AppState::new();
    launch_to_audio_wait(&mut state, "a", true);
    state.advance(LaunchEvent::AudioWaited { devices: None, now_epoch: 1 });
    // a shutdown that is followed by a new launch: backend gone
    let actions = state.shutdown_async();
    assert_eq!(
        actions,
        vec![
            Action::StopBackend,
            Action::ShutdownLogSession,
            Action::KillProcessByToken("token-1".to_string()),
            Action::PublishInactive,
            Action::StopOverlay,
            Action::StopBackend,
            Action::DisconnectDevice,
        ]
    );
    assert_eq!(state.phase(), SessionPhase::Idle);
    // tokens survive a shutdown
    assert!(state.was_requested("a"));
    // shutting down twice tolerates what is gone already
    assert_eq!(state.shutdown_async(), vec![Action::DisconnectDevice]);
}

#[test]
fn kill_signals_by_token_and_tears_down() {
    let mut state = AppState::new();
    assert!(state.try_kill_active_game().is_empty());
    launch_to_audio_wait(&mut state, "a", true);
    state.advance(LaunchEvent::AudioWaited { devices: None, now_epoch: 1 });
    let actions = state.kill_active_game();
    assert_eq!(
        actions,
        vec![
            Action::KillProcessByToken("token-1".to_string()),
            Action::PublishInactive,
            Action::StopOverlay,
            Action::StopBackend,
        ]
    );
    assert_eq!(state.phase(), SessionPhase::Idle);
}

#[test]
fn start_log_session_rotates() {
    let mut state = AppState::new();
    assert_eq!(state.start_log_session(), vec![Action::OpenLogSession]);
    assert_eq!(
        state.start_log_session(),
        vec![Action::ShutdownLogSession, Action::OpenLogSession]
    );
}

#[test]
fn replies_of_the_launch_route() {
    let mut state = AppState::new();
    let query = LaunchQuery { idem_token: "tok".to_string() };
    assert_eq!(answer_duplicate(&state, &query), None);
    let (outcome, _) = state.launch_game_async("tok", game("wivrn"));
    assert_eq!(answer_launch(outcome), Reply::Done);
    assert_eq!(answer_duplicate(&state, &query), Some(Reply::NoContent));
    assert_eq!(answer_launch(LaunchOutcome::SessionAlreadyActive), Reply::InternalServerError);
    assert_eq!(answer_launch(LaunchOutcome::Duplicate), Reply::NoContent);
    assert!(!may_reload_backend(&state));
}

#[test]
fn frontend_assets() {
    assert_eq!(asset_for("/"), AssetRequest::Index);
    assert_eq!(asset_for(""), AssetRequest::Index);
    assert_eq!(asset_for("///"), AssetRequest::Index);
    assert_eq!(asset_for("/favicon.ico"), AssetRequest::Favicon);
    assert_eq!(asset_for("/assets/app.js"), AssetRequest::File("assets/app.js".to_string()));
    assert_eq!(asset_for("index.html"), AssetRequest::File("index.html".to_string()));
    assert_eq!(get_mime_type("assets/app.js"), "application/javascript");
    assert_eq!(get_mime_type("index.html"), "text/html");
    assert_eq!(get_mime_type("a/b.tar.woff2"), "font/woff2");
    assert_eq!(get_mime_type("Makefile"), "application/octet-stream");
    assert_eq!(get_mime_type(".css"), "application/octet-stream");
    assert_eq!(get_mime_type("x.JPG"), "application/octet-stream");
    assert_eq!(mime_type_for(Some("jpeg")), "image/jpeg");
    assert_eq!(mime_type_for(None), "application/octet-stream");
    let asset = get_asset("logo.svg", vec![1, 2, 3]);
    assert_eq!(asset.data, vec![1, 2, 3]);
    assert_eq!(asset.mime_type, "image/svg+xml");
    let icon = get_favicon(vec![9]).unwrap();
    assert_eq!(icon.data, vec![9]);
    assert_eq!(icon.mime_type, "image/png");
}

#[test]
fn errors_have_one_message_each() {
    assert_eq!(
        LaunchError::BackendStartFailed("fatal: cannot bind socket".to_string()).message(),
        "WiVRn server exited unexpectedly: fatal: cannot bind socket"
    );
    assert_eq!(
        LaunchError::SessionAlreadyActive.message(),
        "Another active game session is already running"
    );
    assert_eq!(
        LaunchError::BackendUnsupported.message(),
        "This VR backend is currently not supported!"
    );
    assert_eq!(
        LaunchError::LogChannelConflict("game".to_string()).message(),
        "A log channel with the name game already exists"
    );
    assert_eq!(LaunchError::DeviceUnreachable.message(), "No active device found");
    assert_eq!(
        LaunchError::DeviceNotReady.message(),
        "Please mount the headset before starting any games."
    );
    assert_eq!(LaunchError::CatalogResolutionFailed("x".to_string()).message(), "x");
    assert_eq!(LaunchError::PreflightPathMissing("y".to_string()).message(), "y");
    assert_eq!(LaunchError::Other("z".to_string()).message(), "z");
    assert_eq!(
        active_message("{\"vrDeviceSerial\":\"ABC123\"}"),
        "active:{\"vrDeviceSerial\":\"ABC123\"}"
    );
    assert_eq!(inactive_message(), "inactive");
}
