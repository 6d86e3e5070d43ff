//! The orchestrator of a game session.
//!
//! At most one game session exists at a time. A launch request is taken only
//! while no session exists and none is being started, and only once for each
//! idempotency token. The orchestrator does no outside work itself: every
//! transition returns the actions that its caller has to perform, in order,
//! and the caller reports what came of them as events.

use crate::audio_api::AudioDevice;
use crate::backends::{backend_named, resolve_backend, BackendStartInfo, BackendType};
use crate::models::Game;
use crate::steam::launcher::ProcessHandle;
use crate::text::str_equal;
use vstd::prelude::*;

verus! {

/// One game in progress.
#[derive(Debug)]
pub struct GameSession {
    pub game: Game,
    pub process_handle: ProcessHandle,
    pub start_time_epoch: u64,
    pub vr_device_serial: String,
}

/// Why a launch came to nothing.
#[derive(Debug, PartialEq, Eq)]
pub enum LaunchError {
    /// Neither over USB nor over the network can the headset be reached.
    DeviceUnreachable,
    /// The backend process ended within its grace period; the last line it
    /// wrote to its error stream is kept.
    BackendStartFailed(String),
    /// The game names a backend that cannot be started.
    BackendUnsupported,
    /// The application or the compatibility tool was not found.
    CatalogResolutionFailed(String),
    /// A path that the game needs does not exist.
    PreflightPathMissing(String),
    /// Another game is running or being started.
    SessionAlreadyActive,
    /// A log channel of that name exists already.
    LogChannelConflict(String),
    /// The headset is not ready for a game.
    DeviceNotReady,
    /// Anything else that outside work reported.
    Other(String),
}

/// What became of a launch request.
#[derive(Debug, Clone, Copy, PartialEq, Eq, Structural)]
pub enum LaunchOutcome {
    /// The request was taken: a launch has begun.
    Accepted,
    /// The token was seen before: nothing is done, and that is a success.
    Duplicate,
    /// A session exists or is being started.
    SessionAlreadyActive,
}

/// How far a launch has come: the outside work whose result is awaited.
#[derive(Debug, Clone, Copy, PartialEq, Eq, Structural)]
pub enum LaunchStage {
    RotatingLogs,
    ResolvingTarget,
    StartingBackend,
    CheckingReadiness,
    SpawningGame,
    WaitingForAudio,
}

/// A launch that was accepted and has not ended yet.
#[derive(Debug)]
pub struct PendingLaunch {
    pub game: Game,
    pub stage: LaunchStage,
    pub start_info: Option<BackendStartInfo>,
    pub process_handle: Option<ProcessHandle>,
}

/// The state of the orchestrator as a whole.
#[derive(Debug, Clone, Copy, PartialEq, Eq, Structural)]
pub enum SessionPhase {
    Idle,
    Starting,
    Active,
}

/// What the caller reports back.
#[derive(Debug)]
pub enum LaunchEvent {
    LogsRotated(Result<(), LaunchError>),
    TargetResolved(Result<(), LaunchError>),
    BackendStarted(Result<BackendStartInfo, LaunchError>),
    ReadinessChecked(Result<bool, LaunchError>),
    GameSpawned(Result<ProcessHandle, LaunchError>),
    /// The wait for the backend's audio endpoints is over: both were found,
    /// or the time ran out. `now_epoch` is the time in seconds.
    AudioWaited { devices: Option<(AudioDevice, AudioDevice)>, now_epoch: u64 },
}

/// Outside work that the caller has to perform.
#[derive(Debug, PartialEq, Eq)]
pub enum Action {
    /// Shut the log session down, if one is open, and archive its files.
    ShutdownLogSession,
    /// Open a new log session and archive the files of earlier ones.
    OpenLogSession,
    /// Find the application and the compatibility tool of the game.
    ResolveTarget,
    StopBackend,
    StartBackend(BackendType),
    CheckReadiness,
    SpawnGame,
    WaitForAudio,
    SetDefaultOutput(AudioDevice),
    SetDefaultInput(AudioDevice),
    StartOverlay,
    StopOverlay,
    /// Send the session to the subscribers, as `active:` and its JSON.
    PublishActive,
    /// Send `inactive` to the subscribers.
    PublishInactive,
    /// Kill every process whose environment holds this session token.
    KillProcessByToken(String),
    /// Drop the network connection to the headset.
    DisconnectDevice,
}

/// How a reported event was taken.
#[derive(Debug, PartialEq, Eq)]
pub enum StepOutcome {
    /// No launch awaits this event: nothing changed.
    Ignored,
    /// The launch goes on.
    Continue,
    /// The launch is complete: a session exists.
    Launched,
    /// The launch failed: what was started has been rolled back.
    Failed(LaunchError),
}

/// The orchestrator's state.
pub struct AppState {
    active_game_session: Option<GameSession>,
    pending: Option<PendingLaunch>,
    launch_requests: Vec<String>,
    backend_type: BackendType,
    backend_active: bool,
    log_session_open: bool,
}

/// The state of the orchestrator as contracts see it.
pub struct AppStateView {
    pub active_game_session: Option<GameSession>,
    pub pending: Option<PendingLaunch>,
    /// The idempotency tokens seen so far.
    pub launch_requests: Set<Seq<char>>,
    pub backend_type: BackendType,
    /// A backend process was started and not stopped since.
    pub backend_active: bool,
    pub log_session_open: bool,
}

/// The texts of a list of tokens, as a set.
pub open spec fn token_set(tokens: Seq<String>) -> Set<Seq<char>> {
    Set::new(|t: Seq<char>| exists|i: int| 0 <= i < tokens.len() && tokens[i]@ == t)
}

impl View for AppState {
    type V = AppStateView;

    closed spec fn view(&self) -> AppStateView {
        AppStateView {
            active_game_session: self.active_game_session,
            pending: self.pending,
            launch_requests: token_set(self.launch_requests@),
            backend_type: self.backend_type,
            backend_active: self.backend_active,
            log_session_open: self.log_session_open,
        }
    }
}

impl AppStateView {
    /// Idle without a session and without a launch; starting while a launch
    /// is under way; active once the session exists.
    pub open spec fn phase(self) -> SessionPhase {
        if self.active_game_session.is_some() {
            SessionPhase::Active
        } else if self.pending.is_some() {
            SessionPhase::Starting
        } else {
            SessionPhase::Idle
        }
    }

    /// A session and a launch never exist together.
    pub open spec fn wf(self) -> bool {
        !(self.active_game_session.is_some() && self.pending.is_some())
    }
}

/// The steps that undo a launch: the spawned process is killed, the backend
/// stopped, the log session shut down, each only where it exists.
pub open spec fn rollback(s: AppStateView) -> Seq<Action> {
    let kill = match s.pending {
        Some(PendingLaunch { process_handle: Some(h), .. }) => seq![
            Action::KillProcessByToken(h.token_string()),
        ],
        _ => Seq::<Action>::empty(),
    };
    let stop = if s.backend_active {
        seq![Action::StopBackend]
    } else {
        Seq::<Action>::empty()
    };
    let logs = if s.log_session_open {
        seq![Action::ShutdownLogSession]
    } else {
        Seq::<Action>::empty()
    };
    kill + stop + logs
}

/// The state after a failed launch: idle, with nothing left running.
pub open spec fn after_failure(s: AppStateView) -> AppStateView {
    AppStateView { pending: None, backend_active: false, log_session_open: false, ..s }
}

/// The teardown that follows the end of a game, however it ended: the
/// subscribers are told, the overlay stopped, the backend stopped.
pub open spec fn teardown() -> Seq<Action> {
    seq![Action::PublishInactive, Action::StopOverlay, Action::StopBackend]
}

/// The steps that begin a new log session: the one that is open, if any, is
/// shut down first.
pub open spec fn rotation(s: AppStateView) -> Seq<Action> {
    if s.log_session_open {
        seq![Action::ShutdownLogSession, Action::OpenLogSession]
    } else {
        seq![Action::OpenLogSession]
    }
}

/// The process of the session or of the launch is killed by its token.
pub open spec fn kill_steps(s: AppStateView) -> Seq<Action> {
    match s.active_game_session {
        Some(session) => seq![Action::KillProcessByToken(session.process_handle.token_string())],
        None => match s.pending {
            Some(PendingLaunch { process_handle: Some(h), .. }) => seq![
                Action::KillProcessByToken(h.token_string()),
            ],
            _ => Seq::<Action>::empty(),
        },
    }
}

/// The state once the game is gone: no session, no launch, no backend.
pub open spec fn after_teardown(s: AppStateView) -> AppStateView {
    AppStateView { active_game_session: None, pending: None, backend_active: false, ..s }
}

/// The steps of a shutdown: the backend is stopped and the log session shut
/// down where they exist, a game that runs is killed and torn down, and the
/// network connection to the headset is dropped.
pub open spec fn shutdown_steps(s: AppStateView) -> Seq<Action> {
    let stop = if s.backend_active {
        seq![Action::StopBackend]
    } else {
        Seq::<Action>::empty()
    };
    let logs = if s.log_session_open {
        seq![Action::ShutdownLogSession]
    } else {
        Seq::<Action>::empty()
    };
    let game = if s.phase() != SessionPhase::Idle {
        kill_steps(s) + teardown()
    } else {
        Seq::<Action>::empty()
    };
    stop + logs + game + seq![Action::DisconnectDevice]
}

/// A launch request taken in: the new state, the outcome, and the actions.
pub open spec fn launch_spec(s: AppStateView, token: Seq<char>, game: Game) -> (
    AppStateView,
    LaunchOutcome,
    Seq<Action>,
) {
    if s.launch_requests.contains(token) {
        (s, LaunchOutcome::Duplicate, Seq::<Action>::empty())
    } else {
        let seen = AppStateView { launch_requests: s.launch_requests.insert(token), ..s };
        if s.phase() != SessionPhase::Idle {
            (seen, LaunchOutcome::SessionAlreadyActive, Seq::<Action>::empty())
        } else {
            (
                AppStateView {
                    pending: Some(
                        PendingLaunch {
                            game,
                            stage: LaunchStage::RotatingLogs,
                            start_info: None,
                            process_handle: None,
                        },
                    ),
                    ..seen
                },
                LaunchOutcome::Accepted,
                rotation(s),
            )
        }
    }
}

/// The actions that complete a launch: the audio endpoints are made the
/// defaults where both were found, the overlay is started where the backend
/// was started anew, and the session is published.
pub open spec fn completion(devices: Option<(AudioDevice, AudioDevice)>, was_restarted: bool) -> Seq<
    Action,
> {
    let audio = match devices {
        Some((output, input)) => seq![
            Action::SetDefaultOutput(output),
            Action::SetDefaultInput(input),
        ],
        None => Seq::<Action>::empty(),
    };
    let overlay = if was_restarted {
        seq![Action::StartOverlay]
    } else {
        Seq::<Action>::empty()
    };
    audio + overlay + seq![Action::PublishActive]
}

/// A failed launch: the state after it, the error, and the rollback.
pub open spec fn failed(s: AppStateView, e: LaunchError) -> (AppStateView, StepOutcome, Seq<Action>) {
    (after_failure(s), StepOutcome::Failed(e), rollback(s))
}

/// An event taken in: the new state, how it was taken, and the actions.
pub open spec fn advance_spec(s: AppStateView, event: LaunchEvent) -> (
    AppStateView,
    StepOutcome,
    Seq<Action>,
) {
    match s.pending {
        None => (s, StepOutcome::Ignored, Seq::<Action>::empty()),
        Some(p) => match (p.stage, event) {
            (LaunchStage::RotatingLogs, LaunchEvent::LogsRotated(Ok(_))) => {
                let opened = AppStateView { log_session_open: true, ..s };
                match backend_named(p.game.vr_backend@) {
                    None => failed(opened, LaunchError::BackendUnsupported),
                    Some(kind) => (
                        AppStateView {
                            backend_type: kind,
                            pending: Some(PendingLaunch { stage: LaunchStage::ResolvingTarget, ..p }),
                            ..opened
                        },
                        StepOutcome::Continue,
                        seq![Action::ResolveTarget],
                    ),
                }
            },
            (LaunchStage::RotatingLogs, LaunchEvent::LogsRotated(Err(e))) => failed(s, e),
            (LaunchStage::ResolvingTarget, LaunchEvent::TargetResolved(Ok(_))) => (
                AppStateView {
                    backend_active: false,
                    pending: Some(PendingLaunch { stage: LaunchStage::StartingBackend, ..p }),
                    ..s
                },
                StepOutcome::Continue,
                if s.backend_active {
                    seq![Action::StopBackend, Action::StartBackend(s.backend_type)]
                } else {
                    seq![Action::StartBackend(s.backend_type)]
                },
            ),
            (LaunchStage::ResolvingTarget, LaunchEvent::TargetResolved(Err(e))) => failed(s, e),
            (LaunchStage::StartingBackend, LaunchEvent::BackendStarted(Ok(info))) => (
                AppStateView {
                    backend_active: true,
                    pending: Some(
                        PendingLaunch {
                            stage: LaunchStage::CheckingReadiness,
                            start_info: Some(info),
                            ..p
                        },
                    ),
                    ..s
                },
                StepOutcome::Continue,
                seq![Action::CheckReadiness],
            ),
            (LaunchStage::StartingBackend, LaunchEvent::BackendStarted(Err(e))) => failed(s, e),
            (LaunchStage::CheckingReadiness, LaunchEvent::ReadinessChecked(Ok(ready))) => if ready {
                (
                    AppStateView {
                        pending: Some(PendingLaunch { stage: LaunchStage::SpawningGame, ..p }),
                        ..s
                    },
                    StepOutcome::Continue,
                    seq![Action::SpawnGame],
                )
            } else {
                failed(s, LaunchError::DeviceNotReady)
            },
            (LaunchStage::CheckingReadiness, LaunchEvent::ReadinessChecked(Err(e))) => failed(s, e),
            (LaunchStage::SpawningGame, LaunchEvent::GameSpawned(Ok(handle))) => (
                AppStateView {
                    pending: Some(
                        PendingLaunch {
                            stage: LaunchStage::WaitingForAudio,
                            process_handle: Some(handle),
                            ..p
                        },
                    ),
                    ..s
                },
                StepOutcome::Continue,
                seq![Action::WaitForAudio],
            ),
            (LaunchStage::SpawningGame, LaunchEvent::GameSpawned(Err(e))) => failed(s, e),
            (LaunchStage::WaitingForAudio, LaunchEvent::AudioWaited { devices, now_epoch }) => {
                match (p.start_info, p.process_handle) {
                    (Some(info), Some(handle)) => (
                        AppStateView {
                            pending: None,
                            active_game_session: Some(
                                GameSession {
                                    game: p.game,
                                    process_handle: handle,
                                    start_time_epoch: now_epoch,
                                    vr_device_serial: info.vr_device_serial,
                                },
                            ),
                            ..s
                        },
                        StepOutcome::Launched,
                        completion(devices, info.was_restarted),
                    ),
                    _ => failed(s, LaunchError::DeviceUnreachable),
                }
            },
            _ => (s, StepOutcome::Ignored, Seq::<Action>::empty()),
        },
    }
}

/// Whether `token` is among `tokens`.
fn holds_token(tokens: &Vec<String>, token: &str) -> (r: bool)
    ensures
        r == token_set(tokens@).contains(token@),
{
    let mut i: usize = 0;
    while i < tokens.len()
        invariant
            i <= tokens.len(),
            forall|j: int| 0 <= j < i ==> tokens@[j]@ != token@,
        decreases tokens.len() - i,
    {
        if str_equal(tokens[i].as_str(), token) {
            return true;
        }
        i = i + 1;
    }
    false
}

/// A token put at the end of a list is in the set of the list's tokens,
/// and nothing else is new in it.
proof fn lemma_token_pushed(before: Seq<String>, after: Seq<String>, token: Seq<char>)
    requires
        after.len() == before.len() + 1,
        after.drop_last() =~= before,
        after.last()@ == token,
    ensures
        token_set(after) == token_set(before).insert(token),
{
    assert forall|t: Seq<char>| token_set(after).contains(t) == token_set(before).insert(
        token,
    ).contains(t) by {
        if token_set(before).contains(t) {
            let i = choose|i: int| 0 <= i < before.len() && before[i]@ == t;
            assert(after[i]@ == t);
        }
        if t == token {
            assert(after[before.len() as int]@ == t);
        }
        if token_set(after).contains(t) {
            let i = choose|i: int| 0 <= i < after.len() && after[i]@ == t;
            if i < before.len() {
                assert(before[i]@ == t);
            }
        }
    }
    assert(token_set(after) =~= token_set(before).insert(token));
}

impl AppState {
    /// An orchestrator that has seen nothing yet.
    pub fn new() -> (s: AppState)
        ensures
            s@.phase() == SessionPhase::Idle,
            s@.wf(),
            s@.launch_requests == Set::<Seq<char>>::empty(),
            s@.backend_type == BackendType::Unknown,
            !s@.backend_active,
            !s@.log_session_open,
    {
        let s = AppState {
            active_game_session: None,
            pending: None,
            launch_requests: Vec::new(),
            backend_type: BackendType::Unknown,
            backend_active: false,
            log_session_open: false,
        };
        assert(s@.launch_requests =~= Set::<Seq<char>>::empty());
        s
    }

    /// Idle, starting or active.
    pub fn phase(&self) -> (p: SessionPhase)
        ensures
            p == self@.phase(),
    {
        if self.active_game_session.is_some() {
            SessionPhase::Active
        } else if self.pending.is_some() {
            SessionPhase::Starting
        } else {
            SessionPhase::Idle
        }
    }

    /// The session of the game that runs, if one does.
    pub fn active_game_session(&self) -> (r: &Option<GameSession>)
        ensures
            *r == self@.active_game_session,
    {
        &self.active_game_session
    }

    /// The launch under way, if there is one.
    pub fn pending_launch(&self) -> (r: &Option<PendingLaunch>)
        ensures
            *r == self@.pending,
    {
        &self.pending
    }

    /// The kind of backend that the last launch chose.
    pub fn backend_type(&self) -> (r: BackendType)
        ensures
            r == self@.backend_type,
    {
        self.backend_type
    }

    /// Whether the request with this idempotency token was seen before.
    pub fn was_requested(&self, idem_token: &str) -> (r: bool)
        ensures
            r == self@.launch_requests.contains(idem_token@),
    {
        holds_token(&self.launch_requests, idem_token)
    }

    /// Remembers an idempotency token without launching anything, as for
    /// a request whose game is not known.
    pub fn note_request(&mut self, idem_token: &str)
        ensures
            final(self)@ == (AppStateView {
                launch_requests: old(self)@.launch_requests.insert(idem_token@),
                ..old(self)@
            }),
    {
        if !holds_token(&self.launch_requests, idem_token) {
            let ghost before = self.launch_requests@;
            self.launch_requests.push(idem_token.to_owned());
            proof {
                assert(self.launch_requests@.drop_last() =~= before);
            lemma_token_pushed(before, self.launch_requests@, idem_token@);
            }
        } else {
            assert(self@.launch_requests =~= old(self)@.launch_requests.insert(idem_token@));
        }
    }

    /// Takes a launch request in.
    ///
    /// A token seen before makes the request a duplicate: nothing changes
    /// and nothing is to be done. Otherwise the token is remembered. The
    /// request is then refused while a session exists or is being started;
    /// else the launch begins with the rotation of the log session.
    pub fn launch_game_async(&mut self, idem_token: &str, game: Game) -> (r: (
        LaunchOutcome,
        Vec<Action>,
    ))
        ensures
            (final(self)@, r.0, r.1@) == launch_spec(old(self)@, idem_token@, game),
            old(self)@.wf() ==> final(self)@.wf(),
    {
        let mut actions: Vec<Action> = Vec::new();
        if holds_token(&self.launch_requests, idem_token) {
            return (LaunchOutcome::Duplicate, actions);
        }
        let ghost before = self.launch_requests@;
        let token = idem_token.to_owned();
        self.launch_requests.push(token);
        proof {
            assert(self.launch_requests@.drop_last() =~= before);
            lemma_token_pushed(before, self.launch_requests@, idem_token@);
        }
        if self.active_game_session.is_some() || self.pending.is_some() {
            return (LaunchOutcome::SessionAlreadyActive, actions);
        }
        if self.log_session_open {
            actions.push(Action::ShutdownLogSession);
        }
        actions.push(Action::OpenLogSession);
        self.pending = Some(
            PendingLaunch {
                game,
                stage: LaunchStage::RotatingLogs,
                start_info: None,
                process_handle: None,
            },
        );
        assert(actions@ =~= rotation(old(self)@));
        (LaunchOutcome::Accepted, actions)
    }

    /// Begins a new log session outside a launch.
    pub fn start_log_session(&mut self) -> (actions: Vec<Action>)
        ensures
            actions@ == rotation(old(self)@),
            final(self)@ == (AppStateView { log_session_open: true, ..old(self)@ }),
    {
        let mut actions: Vec<Action> = Vec::new();
        if self.log_session_open {
            actions.push(Action::ShutdownLogSession);
        }
        actions.push(Action::OpenLogSession);
        self.log_session_open = true;
        assert(actions@ =~= rotation(old(self)@));
        actions
    }

    /// The steps that undo the launch under way, and the state after them.
    fn fail(&mut self) -> (actions: Vec<Action>)
        ensures
            actions@ == rollback(old(self)@),
            final(self)@ == after_failure(old(self)@),
    {
        let mut actions: Vec<Action> = Vec::new();
        if let Some(p) = self.pending.take() {
            if let Some(h) = p.process_handle {
                actions.push(Action::KillProcessByToken(h.get_process_token().clone()));
            }
        }
        if self.backend_active {
            actions.push(Action::StopBackend);
        }
        if self.log_session_open {
            actions.push(Action::ShutdownLogSession);
        }
        self.backend_active = false;
        self.log_session_open = false;
        assert(actions@ =~= rollback(old(self)@));
        actions
    }

    /// Takes in what came of the outside work that the launch awaits.
    ///
    /// An event that the launch does not await changes nothing. A failure at
    /// any step ends the launch: what was started is rolled back and the
    /// orchestrator is idle again. The last step, the wait for the audio
    /// endpoints, cannot fail: without endpoints the game runs with the
    /// defaults left as they are.
    pub fn advance(&mut self, event: LaunchEvent) -> (r: (StepOutcome, Vec<Action>))
        ensures
            (final(self)@, r.0, r.1@) == advance_spec(old(self)@, event),
            old(self)@.wf() ==> final(self)@.wf(),
    {
        let stage = match &self.pending {
            None => {
                return (StepOutcome::Ignored, Vec::new());
            },
            Some(p) => p.stage,
        };
        let mut actions: Vec<Action> = Vec::new();
        match (stage, event) {
            (LaunchStage::RotatingLogs, LaunchEvent::LogsRotated(Ok(_))) => {
                self.log_session_open = true;
                let kind = match &self.pending {
                    Some(p) => resolve_backend(p.game.vr_backend.as_str()),
                    None => None,
                };
                match kind {
                    None => {
                        let actions = self.fail();
                        (StepOutcome::Failed(LaunchError::BackendUnsupported), actions)
                    },
                    Some(kind) => {
                        self.backend_type = kind;
                        self.set_stage(LaunchStage::ResolvingTarget);
                        actions.push(Action::ResolveTarget);
                        (StepOutcome::Continue, actions)
                    },
                }
            },
            (LaunchStage::RotatingLogs, LaunchEvent::LogsRotated(Err(e))) => {
                let actions = self.fail();
                (StepOutcome::Failed(e), actions)
            },
            (LaunchStage::ResolvingTarget, LaunchEvent::TargetResolved(Ok(_))) => {
                if self.backend_active {
                    actions.push(Action::StopBackend);
                }
                actions.push(Action::StartBackend(self.backend_type));
                self.backend_active = false;
                self.set_stage(LaunchStage::StartingBackend);
                (StepOutcome::Continue, actions)
            },
            (LaunchStage::ResolvingTarget, LaunchEvent::TargetResolved(Err(e))) => {
                let actions = self.fail();
                (StepOutcome::Failed(e), actions)
            },
            (LaunchStage::StartingBackend, LaunchEvent::BackendStarted(Ok(info))) => {
                self.backend_active = true;
                match self.pending.take() {
                    Some(p) => {
                        self.pending = Some(
                            PendingLaunch {
                                game: p.game,
                                stage: LaunchStage::CheckingReadiness,
                                start_info: Some(info),
                                process_handle: p.process_handle,
                            },
                        );
                    },
                    None => {},
                }
                actions.push(Action::CheckReadiness);
                (StepOutcome::Continue, actions)
            },
            (LaunchStage::StartingBackend, LaunchEvent::BackendStarted(Err(e))) => {
                let actions = self.fail();
                (StepOutcome::Failed(e), actions)
            },
            (LaunchStage::CheckingReadiness, LaunchEvent::ReadinessChecked(Ok(ready))) => {
                if ready {
                    self.set_stage(LaunchStage::SpawningGame);
                    actions.push(Action::SpawnGame);
                    (StepOutcome::Continue, actions)
                } else {
                    let actions = self.fail();
                    (StepOutcome::Failed(LaunchError::DeviceNotReady), actions)
                }
            },
            (LaunchStage::CheckingReadiness, LaunchEvent::ReadinessChecked(Err(e))) => {
                let actions = self.fail();
                (StepOutcome::Failed(e), actions)
            },
            (LaunchStage::SpawningGame, LaunchEvent::GameSpawned(Ok(handle))) => {
                match self.pending.take() {
                    Some(p) => {
                        self.pending = Some(
                            PendingLaunch {
                                game: p.game,
                                stage: LaunchStage::WaitingForAudio,
                                start_info: p.start_info,
                                process_handle: Some(handle),
                            },
                        );
                    },
                    None => {},
                }
                actions.push(Action::WaitForAudio);
                (StepOutcome::Continue, actions)
            },
            (LaunchStage::SpawningGame, LaunchEvent::GameSpawned(Err(e))) => {
                let actions = self.fail();
                (StepOutcome::Failed(e), actions)
            },
            (LaunchStage::WaitingForAudio, LaunchEvent::AudioWaited { devices, now_epoch }) => {
                let complete = match &self.pending {
                    Some(p) => p.start_info.is_some() && p.process_handle.is_some(),
                    None => false,
                };
                if !complete {
                    let actions = self.fail();
                    return (StepOutcome::Failed(LaunchError::DeviceUnreachable), actions);
                }
                match self.pending.take() {
                    Some(
                        PendingLaunch { game, start_info: Some(info), process_handle: Some(handle), .. },
                    ) => {
                        if let Some((output, input)) = devices {
                            actions.push(Action::SetDefaultOutput(output));
                            actions.push(Action::SetDefaultInput(input));
                        }
                        if info.was_restarted {
                            actions.push(Action::StartOverlay);
                        }
                        actions.push(Action::PublishActive);
                        assert(actions@ =~= completion(devices, info.was_restarted));
                        self.active_game_session = Some(
                            GameSession {
                                game,
                                process_handle: handle,
                                start_time_epoch: now_epoch,
                                vr_device_serial: info.vr_device_serial,
                            },
                        );
                        (StepOutcome::Launched, actions)
                    },
                    _ => (StepOutcome::Ignored, actions),
                }
            },
            _ => (StepOutcome::Ignored, actions),
        }
    }

    /// Moves the launch under way to another stage.
    fn set_stage(&mut self, stage: LaunchStage)
        requires
            old(self)@.pending.is_some(),
        ensures
            final(self)@ == (AppStateView {
                pending: Some(PendingLaunch { stage, ..old(self)@.pending.unwrap() }),
                ..old(self)@
            }),
    {
        match self.pending.take() {
            Some(p) => {
                self.pending = Some(
                    PendingLaunch {
                        game: p.game,
                        stage,
                        start_info: p.start_info,
                        process_handle: p.process_handle,
                    },
                );
            },
            None => {},
        }
    }

    /// The game process has ended, or is to be taken for ended: the session
    /// is cleared and the teardown is to be run, each step of it whatever
    /// becomes of the one before.
    pub fn game_process_died(&mut self) -> (actions: Vec<Action>)
        ensures
            actions@ == teardown(),
            final(self)@ == after_teardown(old(self)@),
    {
        self.active_game_session = None;
        self.pending = None;
        self.backend_active = false;
        let mut actions: Vec<Action> = Vec::new();
        actions.push(Action::PublishInactive);
        actions.push(Action::StopOverlay);
        actions.push(Action::StopBackend);
        assert(actions@ =~= teardown());
        actions
    }

    /// Kills the game that runs: its process is found by the session token,
    /// and the teardown follows as after a natural exit.
    pub fn kill_active_game(&mut self) -> (actions: Vec<Action>)
        requires
            old(self)@.active_game_session.is_some(),
        ensures
            actions@ == kill_steps(old(self)@) + teardown(),
            final(self)@ == after_teardown(old(self)@),
    {
        let mut actions: Vec<Action> = Vec::new();
        match &self.active_game_session {
            Some(session) => {
                actions.push(
                    Action::KillProcessByToken(session.process_handle.get_process_token().clone()),
                );
            },
            None => {},
        }
        self.active_game_session = None;
        self.pending = None;
        self.backend_active = false;
        actions.push(Action::PublishInactive);
        actions.push(Action::StopOverlay);
        actions.push(Action::StopBackend);
        assert(actions@ =~= kill_steps(old(self)@) + teardown());
        actions
    }

    /// Kills the game if one runs; does nothing otherwise.
    pub fn try_kill_active_game(&mut self) -> (actions: Vec<Action>)
        ensures
            old(self)@.active_game_session.is_some() ==> actions@ == kill_steps(old(self)@)
                + teardown() && final(self)@ == after_teardown(old(self)@),
            old(self)@.active_game_session.is_none() ==> actions@.len() == 0 && final(self)@ == old(
                self,
            )@,
    {
        if self.active_game_session.is_some() {
            self.kill_active_game()
        } else {
            Vec::new()
        }
    }

    /// Ends everything at the end of the program. Tokens stay remembered.
    pub fn shutdown_async(&mut self) -> (actions: Vec<Action>)
        ensures
            actions@ == shutdown_steps(old(self)@),
            final(self)@ == (AppStateView {
                log_session_open: false,
                ..after_teardown(old(self)@)
            }),
    {
        let mut actions: Vec<Action> = Vec::new();
        if self.backend_active {
            actions.push(Action::StopBackend);
        }
        if self.log_session_open {
            actions.push(Action::ShutdownLogSession);
        }
        let ghost head = actions@;
        let busy = self.active_game_session.is_some() || self.pending.is_some();
        match self.active_game_session.take() {
            Some(session) => {
                actions.push(
                    Action::KillProcessByToken(session.process_handle.get_process_token().clone()),
                );
            },
            None => {
                if let Some(p) = self.pending.take() {
                    if let Some(h) = p.process_handle {
                        actions.push(Action::KillProcessByToken(h.get_process_token().clone()));
                    }
                }
            },
        }
        assert(actions@ =~= head + kill_steps(old(self)@));
        if busy {
            actions.push(Action::PublishInactive);
            actions.push(Action::StopOverlay);
            actions.push(Action::StopBackend);
        }
        actions.push(Action::DisconnectDevice);
        self.pending = None;
        self.backend_active = false;
        self.log_session_open = false;
        assert(actions@ =~= shutdown_steps(old(self)@));
        actions
    }
}

/// The message of an error, as it is shown to the user.
pub open spec fn error_message(e: LaunchError) -> Seq<char> {
    match e {
        LaunchError::DeviceUnreachable => "No active device found"@,
        LaunchError::BackendStartFailed(line) => "WiVRn server exited unexpectedly: "@ + line@,
        LaunchError::BackendUnsupported => "This VR backend is currently not supported!"@,
        LaunchError::CatalogResolutionFailed(m) => m@,
        LaunchError::PreflightPathMissing(m) => m@,
        LaunchError::SessionAlreadyActive => "Another active game session is already running"@,
        LaunchError::LogChannelConflict(name) => "A log channel with the name "@ + name@
            + " already exists"@,
        LaunchError::DeviceNotReady => "Please mount the headset before starting any games."@,
        LaunchError::Other(m) => m@,
    }
}

impl LaunchError {
    /// The one message under which the error is shown to the user.
    pub fn message(&self) -> (m: String)
        ensures
            m@ == error_message(*self),
    {
        match self {
            LaunchError::DeviceUnreachable => "No active device found".to_owned(),
            LaunchError::BackendStartFailed(line) => {
                let mut m = "WiVRn server exited unexpectedly: ".to_owned();
                m.append(line.as_str());
                m
            },
            LaunchError::BackendUnsupported => "This VR backend is currently not supported!".to_owned(),
            LaunchError::CatalogResolutionFailed(m) => m.clone(),
            LaunchError::PreflightPathMissing(m) => m.clone(),
            LaunchError::SessionAlreadyActive => "Another active game session is already running".to_owned(),
            LaunchError::LogChannelConflict(name) => {
                let mut m = "A log channel with the name ".to_owned();
                m.append(name.as_str());
                m.append(" already exists");
                m
            },
            LaunchError::DeviceNotReady => "Please mount the headset before starting any games.".to_owned(),
            LaunchError::Other(m) => m.clone(),
        }
    }
}

/// What the subscribers are sent for a session: `active:` and the session
/// as JSON.
pub fn active_message(session_json: &str) -> (m: String)
    ensures
        m@ == "active:"@ + session_json@,
{
    let mut m = "active:".to_owned();
    m.append(session_json);
    m
}

/// What the subscribers are sent once no game runs.
pub fn inactive_message() -> (m: String)
    ensures
        m@ == "inactive"@,
{
    "inactive".to_owned()
}

} // verus!
