use vstd::prelude::*;

verus! {

/// Carries the empty request used to read Desktop runtime configuration consistently.
#[derive(Clone, Debug, Default, PartialEq, Eq)]
pub struct GetDesktopConfigRequest {}

/// Returns the current non-sensitive Desktop runtime configuration.
#[derive(Clone, Debug, PartialEq, Eq)]
pub struct GetDesktopConfigResponse {
    pub worktree_root: String,
}

/// Carries a user-selected worktree creation root into the Desktop configuration command.
#[derive(Clone, Debug, PartialEq, Eq)]
pub struct SetWorktreeRootRequest {
    pub worktree_root: String,
}

/// Confirms the active worktree root after a successful configuration update.
#[derive(Clone, Debug, PartialEq, Eq)]
pub struct SetWorktreeRootResponse {
    pub worktree_root: String,
}

/// Reports the current Desktop worktree configuration from the configured root.
pub fn desktop_config_response(worktree_root: String) -> (response: GetDesktopConfigResponse)
    ensures
        response.worktree_root == worktree_root,
{
    GetDesktopConfigResponse { worktree_root }
}

/// Where an update of the worktree creation root stands.
#[derive(Clone, Debug, PartialEq, Eq)]
pub enum RootUpdateState {
    /// Waiting for the snapshot of the current configuration.
    AwaitingSnapshot { requested: String },
    /// Waiting for the requested root to be validated.
    AwaitingValidation { previous: String, requested: String },
    /// Waiting for the backend to take the requested root.
    AwaitingBackend { previous: String, requested: String },
    /// Waiting for the configuration store to persist the requested root.
    AwaitingConfig { previous: String, requested: String },
    /// Waiting for the backend to take back the previous root.
    AwaitingRollback { previous: String, requested: String },
    /// The update has answered.
    Finished,
}

/// What an update of the worktree creation root asks its runtime to do next.
#[derive(Clone, Debug, PartialEq, Eq)]
pub enum RootUpdateAction {
    /// Read the current configuration.
    ReadConfigSnapshot,
    /// Check that the root is an absolute path to an existing directory.
    ValidateRoot(String),
    /// Make the backend create new worktrees under the root.
    SetBackendRoot(String),
    /// Persist the root in the configuration store.
    SaveConfigRoot(String),
    /// Make the backend create new worktrees under the root again, ignoring failure.
    RestoreBackendRoot(String),
    /// Answer the command with success.
    Respond(SetWorktreeRootResponse),
    /// Answer the command with the failure of the step that failed.
    Fail(RootUpdateFailure),
}

/// The step whose failure an update answers with.
#[derive(Clone, Copy, Debug, PartialEq, Eq, Structural)]
pub enum RootUpdateFailure {
    /// The configuration could not be read.
    SnapshotUnavailable,
    /// The requested root is not acceptable.
    InvalidRoot,
    /// The backend refused the requested root.
    BackendRejected,
    /// The configuration store could not persist the requested root.
    ConfigNotSaved,
}

/// What the runtime reports back after performing the last action.
#[derive(Clone, Debug, PartialEq, Eq)]
pub enum RootUpdateEvent {
    /// The configuration was read; it names this root.
    SnapshotRead(String),
    /// The action succeeded.
    Succeeded,
    /// The action failed.
    Failed,
}

/// Whether an event reports success: a snapshot or a plain success.
pub open spec fn event_succeeded(event: RootUpdateEvent) -> bool {
    !(event is Failed)
}

/// One step of an update of the worktree creation root: read the configuration,
/// validate the requested root, hand it to the backend, then persist it. When
/// persisting fails after the backend took the root, the backend is given the
/// previous root back before the update fails; the outcome of that restore does
/// not change the answer.
pub open spec fn root_update_step(state: RootUpdateState, event: RootUpdateEvent) -> (RootUpdateState, RootUpdateAction) {
    match state {
        RootUpdateState::AwaitingSnapshot { requested } => match event {
            RootUpdateEvent::SnapshotRead(previous) => (
                RootUpdateState::AwaitingValidation { previous, requested },
                RootUpdateAction::ValidateRoot(requested),
            ),
            _ => (RootUpdateState::Finished, RootUpdateAction::Fail(RootUpdateFailure::SnapshotUnavailable)),
        },
        RootUpdateState::AwaitingValidation { previous, requested } => if event_succeeded(event) {
            (RootUpdateState::AwaitingBackend { previous, requested }, RootUpdateAction::SetBackendRoot(requested))
        } else {
            (RootUpdateState::Finished, RootUpdateAction::Fail(RootUpdateFailure::InvalidRoot))
        },
        RootUpdateState::AwaitingBackend { previous, requested } => if event_succeeded(event) {
            (RootUpdateState::AwaitingConfig { previous, requested }, RootUpdateAction::SaveConfigRoot(requested))
        } else {
            (RootUpdateState::Finished, RootUpdateAction::Fail(RootUpdateFailure::BackendRejected))
        },
        RootUpdateState::AwaitingConfig { previous, requested } => if event_succeeded(event) {
            (
                RootUpdateState::Finished,
                RootUpdateAction::Respond(SetWorktreeRootResponse { worktree_root: requested }),
            )
        } else {
            (
                RootUpdateState::AwaitingRollback { previous, requested },
                RootUpdateAction::RestoreBackendRoot(previous),
            )
        },
        RootUpdateState::AwaitingRollback { .. } => (
            RootUpdateState::Finished,
            RootUpdateAction::Fail(RootUpdateFailure::ConfigNotSaved),
        ),
        RootUpdateState::Finished => (RootUpdateState::Finished, RootUpdateAction::ReadConfigSnapshot),
    }
}

/// Starts an update of the worktree creation root: the configuration is read first.
pub fn start_root_update(request: SetWorktreeRootRequest) -> (next: (RootUpdateState, RootUpdateAction))
    ensures
        next == (RootUpdateState::AwaitingSnapshot { requested: request.worktree_root }, RootUpdateAction::ReadConfigSnapshot),
{
    (RootUpdateState::AwaitingSnapshot { requested: request.worktree_root }, RootUpdateAction::ReadConfigSnapshot)
}

/// Advances an unfinished update of the worktree creation root by the outcome
/// of its last action.
pub fn advance_root_update(state: RootUpdateState, event: RootUpdateEvent) -> (next: (RootUpdateState, RootUpdateAction))
    requires
        !(state is Finished),
    ensures
        next == root_update_step(state, event),
{
    match state {
        RootUpdateState::AwaitingSnapshot { requested } => match event {
            RootUpdateEvent::SnapshotRead(previous) => {
                let validate = requested.clone();
                (
                    RootUpdateState::AwaitingValidation { previous, requested },
                    RootUpdateAction::ValidateRoot(validate),
                )
            },
            _ => (RootUpdateState::Finished, RootUpdateAction::Fail(RootUpdateFailure::SnapshotUnavailable)),
        },
        RootUpdateState::AwaitingValidation { previous, requested } => match event {
            RootUpdateEvent::Failed => (RootUpdateState::Finished, RootUpdateAction::Fail(RootUpdateFailure::InvalidRoot)),
            _ => {
                let set = requested.clone();
                (RootUpdateState::AwaitingBackend { previous, requested }, RootUpdateAction::SetBackendRoot(set))
            },
        },
        RootUpdateState::AwaitingBackend { previous, requested } => match event {
            RootUpdateEvent::Failed => (RootUpdateState::Finished, RootUpdateAction::Fail(RootUpdateFailure::BackendRejected)),
            _ => {
                let save = requested.clone();
                (RootUpdateState::AwaitingConfig { previous, requested }, RootUpdateAction::SaveConfigRoot(save))
            },
        },
        RootUpdateState::AwaitingConfig { previous, requested } => match event {
            RootUpdateEvent::Failed => {
                let restore = previous.clone();
                (RootUpdateState::AwaitingRollback { previous, requested }, RootUpdateAction::RestoreBackendRoot(restore))
            },
            _ => (
                RootUpdateState::Finished,
                RootUpdateAction::Respond(SetWorktreeRootResponse { worktree_root: requested }),
            ),
        },
        RootUpdateState::AwaitingRollback { .. } => (
            RootUpdateState::Finished,
            RootUpdateAction::Fail(RootUpdateFailure::ConfigNotSaved),
        ),
        RootUpdateState::Finished => (RootUpdateState::Finished, RootUpdateAction::ReadConfigSnapshot),
    }
}

/// The actions an update issues from `state` when its runtime reports `events`
/// one by one; the run stops once the update has answered.
pub open spec fn root_update_run(state: RootUpdateState, events: Seq<RootUpdateEvent>) -> Seq<RootUpdateAction>
    decreases events.len(),
{
    if events.len() == 0 || state is Finished {
        seq![]
    } else {
        let (next, action) = root_update_step(state, events[0]);
        seq![action] + root_update_run(next, events.drop_first())
    }
}

/// Whether an action hands out the requested root wherever it names the new
/// root, and the previous root wherever it restores one.
pub open spec fn action_uses_roots(action: RootUpdateAction, requested: Seq<char>, previous: Seq<char>) -> bool {
    match action {
        RootUpdateAction::ValidateRoot(root) => root@ == requested,
        RootUpdateAction::SetBackendRoot(root) => root@ == requested,
        RootUpdateAction::SaveConfigRoot(root) => root@ == requested,
        RootUpdateAction::RestoreBackendRoot(root) => root@ == previous,
        RootUpdateAction::Respond(response) => response.worktree_root@ == requested,
        _ => true,
    }
}

/// Whether an action answers the command.
pub open spec fn is_answer(action: RootUpdateAction) -> bool {
    action is Respond || action is Fail
}

/// Whether a state knows the previous root, with the roots it holds.
pub open spec fn state_roots(state: RootUpdateState, requested: Seq<char>, previous: Seq<char>) -> bool {
    match state {
        RootUpdateState::AwaitingValidation { previous: p, requested: r } => r@ == requested && p@ == previous,
        RootUpdateState::AwaitingBackend { previous: p, requested: r } => r@ == requested && p@ == previous,
        RootUpdateState::AwaitingConfig { previous: p, requested: r } => r@ == requested && p@ == previous,
        RootUpdateState::AwaitingRollback { previous: p, requested: r } => r@ == requested && p@ == previous,
        _ => false,
    }
}

/// Once the configuration has been read, every root an update hands out is the
/// requested one, and the only root it ever restores is the one it read.
pub proof fn lemma_run_uses_roots(state: RootUpdateState, events: Seq<RootUpdateEvent>, requested: Seq<char>, previous: Seq<char>)
    requires
        state_roots(state, requested, previous),
    ensures
        forall|i: int| 0 <= i < root_update_run(state, events).len()
            ==> action_uses_roots(#[trigger] root_update_run(state, events)[i], requested, previous),
    decreases events.len(),
{
    if events.len() > 0 {
        let (next, action) = root_update_step(state, events[0]);
        let rest = root_update_run(next, events.drop_first());
        if !(next is Finished) {
            lemma_run_uses_roots(next, events.drop_first(), requested, previous);
        }
        assert forall|i: int| 0 <= i < root_update_run(state, events).len()
            implies action_uses_roots(#[trigger] root_update_run(state, events)[i], requested, previous) by {
            if i > 0 {
                assert(root_update_run(state, events)[i] == rest[i - 1]);
            }
        }
    }
}

/// A complete update reads the configuration first; from then on every root it
/// hands out is the requested one, and the only root it restores to the backend
/// is the one the configuration held.
pub proof fn lemma_update_uses_roots(requested: String, previous: String, events: Seq<RootUpdateEvent>)
    requires
        events.len() > 0,
        events[0] == RootUpdateEvent::SnapshotRead(previous),
    ensures
        forall|i: int| 0 <= i < root_update_run(RootUpdateState::AwaitingSnapshot { requested }, events).len()
            ==> action_uses_roots(
                #[trigger] root_update_run(RootUpdateState::AwaitingSnapshot { requested }, events)[i],
                requested@,
                previous@,
            ),
{
    let start = RootUpdateState::AwaitingSnapshot { requested };
    let next = RootUpdateState::AwaitingValidation { previous, requested };
    assert(root_update_step(start, events[0]) == (next, RootUpdateAction::ValidateRoot(requested)));
    lemma_run_uses_roots(next, events.drop_first(), requested@, previous@);
    let rest = root_update_run(next, events.drop_first());
    assert forall|i: int| 0 <= i < root_update_run(start, events).len()
        implies action_uses_roots(#[trigger] root_update_run(start, events)[i], requested@, previous@) by {
        if i > 0 {
            assert(root_update_run(start, events)[i] == rest[i - 1]);
        }
    }
}

/// An update answers at most once: an answer is always its last action.
pub proof fn lemma_answer_is_last(state: RootUpdateState, events: Seq<RootUpdateEvent>)
    ensures
        forall|i: int| 0 <= i < root_update_run(state, events).len() && is_answer(#[trigger] root_update_run(state, events)[i])
            ==> i == root_update_run(state, events).len() - 1,
    decreases events.len(),
{
    if events.len() > 0 && !(state is Finished) {
        let (next, action) = root_update_step(state, events[0]);
        lemma_answer_is_last(next, events.drop_first());
        let rest = root_update_run(next, events.drop_first());
        assert forall|i: int| 0 <= i < root_update_run(state, events).len() && is_answer(#[trigger] root_update_run(state, events)[i])
            implies i == root_update_run(state, events).len() - 1 by {
            if i == 0 {
                assert(next is Finished);
                assert(rest.len() == 0);
            } else {
                assert(root_update_run(state, events)[i] == rest[i - 1]);
            }
        }
    }
}

/// An update answers with success only right after persisting the requested
/// root, unless it was already waiting on that persistence.
pub proof fn lemma_success_follows_save(state: RootUpdateState, events: Seq<RootUpdateEvent>)
    ensures
        forall|i: int| 0 <= i < root_update_run(state, events).len() && (#[trigger] root_update_run(state, events)[i]) is Respond
            ==> (i == 0 && state is AwaitingConfig) || (i > 0 && root_update_run(state, events)[i - 1] is SaveConfigRoot),
    decreases events.len(),
{
    if events.len() > 0 && !(state is Finished) {
        let (next, action) = root_update_step(state, events[0]);
        lemma_success_follows_save(next, events.drop_first());
        let rest = root_update_run(next, events.drop_first());
        assert forall|i: int| 0 <= i < root_update_run(state, events).len() && (#[trigger] root_update_run(state, events)[i]) is Respond
            implies (i == 0 && state is AwaitingConfig) || (i > 0 && root_update_run(state, events)[i - 1] is SaveConfigRoot) by {
            if i > 0 {
                assert(root_update_run(state, events)[i] == rest[i - 1]);
                if i > 1 {
                    assert(root_update_run(state, events)[i - 1] == rest[i - 2]);
                }
            }
        }
    }
}

/// When persisting the requested root fails, the backend is handed the previous
/// root back, and whatever the restore reports the update fails with the
/// persistence failure.
pub proof fn lemma_failed_save_rolls_back(previous: String, requested: String, restore_outcome: RootUpdateEvent)
    ensures
        root_update_step(RootUpdateState::AwaitingConfig { previous, requested }, RootUpdateEvent::Failed)
            == (RootUpdateState::AwaitingRollback { previous, requested }, RootUpdateAction::RestoreBackendRoot(previous)),
        root_update_step(RootUpdateState::AwaitingRollback { previous, requested }, restore_outcome)
            == (RootUpdateState::Finished, RootUpdateAction::Fail(RootUpdateFailure::ConfigNotSaved)),
{
}

} // verus!
