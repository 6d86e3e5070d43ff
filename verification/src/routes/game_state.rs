//! Requests on the game session.

use crate::app_state::{AppState, LaunchOutcome};
use crate::backends::BackendType;
use vstd::prelude::*;

verus! {

/// The query of a launch request.
#[derive(Debug)]
pub struct LaunchQuery {
    pub idem_token: String,
}

/// What a request is answered with.
#[derive(Debug, Clone, Copy, PartialEq, Eq, Structural)]
pub enum Reply {
    /// 200.
    Done,
    /// 204.
    NoContent,
    /// 404.
    NotFound,
    /// 500.
    InternalServerError,
}

/// What a launch request is answered with before anything is launched: a
/// request whose token was seen before is answered at once, with success
/// and nothing done.
pub fn answer_duplicate(state: &AppState, query: &LaunchQuery) -> (r: Option<Reply>)
    ensures
        r == (if state@.launch_requests.contains(query.idem_token@) {
            Some(Reply::NoContent)
        } else {
            None
        }),
{
    if state.was_requested(query.idem_token.as_str()) {
        Some(Reply::NoContent)
    } else {
        None
    }
}

/// What a launch request is answered with once it was taken in.
pub fn answer_launch(outcome: LaunchOutcome) -> (r: Reply)
    ensures
        r == (match outcome {
            LaunchOutcome::Accepted => Reply::Done,
            LaunchOutcome::Duplicate => Reply::NoContent,
            LaunchOutcome::SessionAlreadyActive => Reply::InternalServerError,
        }),
{
    match outcome {
        LaunchOutcome::Accepted => Reply::Done,
        LaunchOutcome::Duplicate => Reply::NoContent,
        LaunchOutcome::SessionAlreadyActive => Reply::InternalServerError,
    }
}

/// Whether a request to reload the backend is followed: only while a game
/// runs, and only for a backend that can reconnect.
pub fn may_reload_backend(state: &AppState) -> (r: bool)
    ensures
        r == (state@.active_game_session.is_some() && (state@.backend_type == BackendType::WiVRn
            || state@.backend_type == BackendType::Envision)),
{
    state.active_game_session().is_some() && (state.backend_type() == BackendType::WiVRn
        || state.backend_type() == BackendType::Envision)
}

} // verus!
