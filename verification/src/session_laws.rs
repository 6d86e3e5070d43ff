//! What holds of the orchestrator over whole histories of requests and
//! events.

use crate::app_state::{
    advance_spec, after_teardown, kill_steps, launch_spec, shutdown_steps, teardown, Action,
    AppStateView, LaunchEvent, LaunchOutcome, LaunchStage, SessionPhase,
};
use crate::models::Game;
use vstd::prelude::*;

verus! {

/// Anything that can happen to the orchestrator.
pub enum Input {
    /// A launch request with its idempotency token.
    Launch { token: Seq<char>, game: Game },
    /// The result of outside work.
    Event(LaunchEvent),
    /// A request to kill the game; it does nothing without a session.
    Kill,
    /// The game process was seen to end.
    ProcessDied,
    Shutdown,
}

/// The state after one input, and the actions that it asks for.
pub open spec fn step(s: AppStateView, input: Input) -> (AppStateView, Seq<Action>) {
    match input {
        Input::Launch { token, game } => (
            launch_spec(s, token, game).0,
            launch_spec(s, token, game).2,
        ),
        Input::Event(e) => (advance_spec(s, e).0, advance_spec(s, e).2),
        Input::Kill => if s.active_game_session.is_some() {
            (after_teardown(s), kill_steps(s) + teardown())
        } else {
            (s, Seq::<Action>::empty())
        },
        Input::ProcessDied => (after_teardown(s), teardown()),
        Input::Shutdown => (
            AppStateView { log_session_open: false, ..after_teardown(s) },
            shutdown_steps(s),
        ),
    }
}

/// The state after a history of inputs.
pub open spec fn run(s: AppStateView, inputs: Seq<Input>) -> AppStateView
    decreases inputs.len(),
{
    if inputs.len() == 0 {
        s
    } else {
        step(run(s, inputs.drop_last()), inputs.last()).0
    }
}

/// Whether the input at the end of a history is a launch request that is
/// accepted.
pub open spec fn accepted(s: AppStateView, input: Input) -> bool {
    input matches Input::Launch { token, game } && launch_spec(s, token, game).1
        == LaunchOutcome::Accepted
}

/// How many launch requests with the token `t` a history accepts.
pub open spec fn accepted_with(s: AppStateView, inputs: Seq<Input>, t: Seq<char>) -> nat
    decreases inputs.len(),
{
    if inputs.len() == 0 {
        0
    } else {
        let before = run(s, inputs.drop_last());
        let here: nat = if accepted(before, inputs.last()) && inputs.last()->token == t {
            1
        } else {
            0
        };
        accepted_with(s, inputs.drop_last(), t) + here
    }
}

/// How many launch requests a history accepts.
pub open spec fn accepted_count(s: AppStateView, inputs: Seq<Input>) -> nat
    decreases inputs.len(),
{
    if inputs.len() == 0 {
        0
    } else {
        let here: nat = if accepted(run(s, inputs.drop_last()), inputs.last()) {
            1
        } else {
            0
        };
        accepted_count(s, inputs.drop_last()) + here
    }
}

/// How often an action to spawn the game stands in a list of actions.
pub open spec fn spawns_in(actions: Seq<Action>) -> nat
    decreases actions.len(),
{
    if actions.len() == 0 {
        0
    } else {
        let here: nat = if actions.last() is SpawnGame {
            1
        } else {
            0
        };
        spawns_in(actions.drop_last()) + here
    }
}

/// How often a history asks for the game to be spawned.
pub open spec fn spawn_count(s: AppStateView, inputs: Seq<Input>) -> nat
    decreases inputs.len(),
{
    if inputs.len() == 0 {
        0
    } else {
        spawn_count(s, inputs.drop_last()) + spawns_in(
            step(run(s, inputs.drop_last()), inputs.last()).1,
        )
    }
}

/// How many sessions a history creates.
pub open spec fn session_count(s: AppStateView, inputs: Seq<Input>) -> nat
    decreases inputs.len(),
{
    if inputs.len() == 0 {
        0
    } else {
        let before = run(s, inputs.drop_last());
        let after = step(before, inputs.last()).0;
        let here: nat = if before.active_game_session.is_none()
            && after.active_game_session.is_some() {
            1
        } else {
            0
        };
        session_count(s, inputs.drop_last()) + here
    }
}

/// A launch is under way that has not asked for the game to be spawned yet.
pub open spec fn armed(s: AppStateView) -> bool {
    s.pending matches Some(p) && (p.stage == LaunchStage::RotatingLogs || p.stage
        == LaunchStage::ResolvingTarget || p.stage == LaunchStage::StartingBackend || p.stage
        == LaunchStage::CheckingReadiness)
}

/// 1 where the condition holds, else 0.
pub open spec fn one_if(b: bool) -> nat {
    if b {
        1
    } else {
        0
    }
}

/// While a session exists or is being started, a launch request is never
/// accepted: it is a duplicate where its token was seen before, and refused
/// as "session already active" otherwise. The session and the launch under
/// way are left as they are, and nothing is to be done.
pub proof fn law_busy_refuses_launch(s: AppStateView, token: Seq<char>, game: Game)
    requires
        s.phase() != SessionPhase::Idle,
    ensures
        launch_spec(s, token, game).1 == (if s.launch_requests.contains(token) {
            LaunchOutcome::Duplicate
        } else {
            LaunchOutcome::SessionAlreadyActive
        }),
        launch_spec(s, token, game).0.active_game_session == s.active_game_session,
        launch_spec(s, token, game).0.pending == s.pending,
        launch_spec(s, token, game).2.len() == 0,
{
}

/// Every input keeps the well-formedness of the state, and forgets no
/// token.
pub proof fn law_step_keeps(s: AppStateView, input: Input)
    requires
        s.wf(),
    ensures
        step(s, input).0.wf(),
        s.launch_requests.subset_of(step(s, input).0.launch_requests),
        input matches Input::Launch { token, .. } ==> step(s, input).0.launch_requests.contains(
            token,
        ),
{
}

/// Every history keeps the well-formedness of the state, and forgets no
/// token.
pub proof fn law_run_keeps(s: AppStateView, inputs: Seq<Input>)
    requires
        s.wf(),
    ensures
        run(s, inputs).wf(),
        s.launch_requests.subset_of(run(s, inputs).launch_requests),
    decreases inputs.len(),
{
    if inputs.len() > 0 {
        law_run_keeps(s, inputs.drop_last());
        law_step_keeps(run(s, inputs.drop_last()), inputs.last());
    }
}

/// In a history made of launch requests alone, each after the first that
/// is accepted is refused or a duplicate: once a launch is under way or a
/// session exists, none other begins.
pub proof fn law_launches_while_busy(s: AppStateView, inputs: Seq<Input>, k: int)
    requires
        s.wf(),
        s.phase() != SessionPhase::Idle,
        forall|i: int| 0 <= i < inputs.len() ==> inputs[i] is Launch,
        0 <= k < inputs.len(),
    ensures
        run(s, inputs).active_game_session == s.active_game_session,
        run(s, inputs).pending == s.pending,
        !accepted(run(s, inputs.take(k)), inputs[k]),
    decreases inputs.len(),
{
    let head = inputs.drop_last();
    if k < inputs.len() - 1 {
        law_launches_while_busy(s, head, k);
        assert(head.take(k) =~= inputs.take(k));
    } else {
        assert(inputs.take(k) =~= head);
    }
    lemma_launches_keep(s, head);
}

/// Launch requests alone leave a busy orchestrator's session and launch as
/// they are.
proof fn lemma_launches_keep(s: AppStateView, inputs: Seq<Input>)
    requires
        s.phase() != SessionPhase::Idle,
        forall|i: int| 0 <= i < inputs.len() ==> inputs[i] is Launch,
    ensures
        run(s, inputs).active_game_session == s.active_game_session,
        run(s, inputs).pending == s.pending,
    decreases inputs.len(),
{
    if inputs.len() > 0 {
        lemma_launches_keep(s, inputs.drop_last());
        assert(inputs.last() is Launch);
    }
}

/// The same idempotency token never begins two launches: over any history,
/// at most one request with a given token is accepted, and none where the
/// token was seen before the history began.
pub proof fn law_token_accepted_once(s: AppStateView, inputs: Seq<Input>, t: Seq<char>)
    requires
        s.wf(),
    ensures
        accepted_with(s, inputs, t) <= 1,
        s.launch_requests.contains(t) ==> accepted_with(s, inputs, t) == 0,
        accepted_with(s, inputs, t) == 1 ==> run(s, inputs).launch_requests.contains(t),
    decreases inputs.len(),
{
    if inputs.len() > 0 {
        let head = inputs.drop_last();
        law_token_accepted_once(s, head, t);
        law_run_keeps(s, head);
        law_step_keeps(run(s, head), inputs.last());
    }
}

/// A request whose token was seen before is a duplicate: the state stays
/// as it is and nothing is to be done, so it creates no session and spawns
/// no process.
pub proof fn law_duplicate_does_nothing(s: AppStateView, token: Seq<char>, game: Game)
    requires
        s.launch_requests.contains(token),
    ensures
        launch_spec(s, token, game) == (s, LaunchOutcome::Duplicate, Seq::<Action>::empty()),
{
}

/// One input asks for the game to be spawned at most once, and only for a
/// launch that had not asked before; and only an accepted launch request
/// makes a launch that may ask.
pub proof fn law_step_spawns(s: AppStateView, input: Input)
    requires
        s.wf(),
    ensures
        spawns_in(step(s, input).1) + one_if(armed(step(s, input).0)) <= one_if(armed(s)) + one_if(
            accepted(s, input),
        ),
        one_if(s.active_game_session.is_none() && step(s, input).0.active_game_session.is_some())
            + one_if(step(s, input).0.pending.is_some()) <= one_if(s.pending.is_some()) + one_if(
            accepted(s, input),
        ),
{
    let actions = step(s, input).1;
    lemma_spawns_small(actions);
}

/// In the lists of actions that the orchestrator hands out, the game is
/// asked to be spawned only by a list that holds nothing else.
proof fn lemma_spawns_small(actions: Seq<Action>)
    ensures
        actions.len() == 0 ==> spawns_in(actions) == 0,
        actions.len() == 1 ==> spawns_in(actions) == one_if(actions[0] is SpawnGame),
        (forall|i: int| 0 <= i < actions.len() ==> !(actions[i] is SpawnGame)) ==> spawns_in(
            actions,
        ) == 0,
    decreases actions.len(),
{
    if actions.len() > 0 {
        lemma_spawns_small(actions.drop_last());
        if actions.len() == 1 {
            assert(actions.drop_last().len() == 0);
        }
    }
}

/// Over any history, the game is asked to be spawned at most once for each
/// accepted launch request, and a session is created at most once for
/// each; a launch that was under way when the history began may account for
/// one more.
pub proof fn law_one_spawn_per_launch(s: AppStateView, inputs: Seq<Input>)
    requires
        s.wf(),
    ensures
        spawn_count(s, inputs) + one_if(armed(run(s, inputs))) <= accepted_count(s, inputs)
            + one_if(armed(s)),
        session_count(s, inputs) + one_if(run(s, inputs).pending.is_some()) <= accepted_count(
            s,
            inputs,
        ) + one_if(s.pending.is_some()),
    decreases inputs.len(),
{
    if inputs.len() > 0 {
        let head = inputs.drop_last();
        law_one_spawn_per_launch(s, head);
        law_run_keeps(s, head);
        law_step_spawns(run(s, head), inputs.last());
    }
}

/// A session is published as active only by the input that creates it,
/// when it exists in full: no launch that is still under way, and none
/// that failed, is ever published.
pub proof fn law_publish_only_with_session(s: AppStateView, input: Input)
    requires
        s.wf(),
    ensures
        step(s, input).1.contains(Action::PublishActive) ==> s.active_game_session.is_none()
            && step(s, input).0.active_game_session.is_some() && step(s, input).0.pending.is_none(),
{
    let actions = step(s, input).1;
    if actions.contains(Action::PublishActive) {
        let i = choose|i: int| 0 <= i < actions.len() && actions[i] == Action::PublishActive;
        assert(actions[i] is PublishActive);
    }
}

/// After the teardown that follows the end of a game, the orchestrator is
/// idle, whatever state it was in; and the teardown is the same three
/// steps, in the same order, after an exit and after a kill.
pub proof fn law_teardown(s: AppStateView)
    ensures
        step(s, Input::ProcessDied).0.phase() == SessionPhase::Idle,
        step(s, Input::ProcessDied).1 == teardown(),
        s.active_game_session.is_some() ==> step(s, Input::Kill).0 == step(
            s,
            Input::ProcessDied,
        ).0 && step(s, Input::Kill).1 == kill_steps(s) + teardown(),
        step(s, Input::Shutdown).0.phase() == SessionPhase::Idle,
{
}

} // verus!
