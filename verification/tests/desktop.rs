use ora::desktop::commands::{
    advance_root_update, desktop_config_response, start_root_update, RootUpdateAction,
    RootUpdateEvent, RootUpdateFailure, RootUpdateState, SetWorktreeRootRequest,
    SetWorktreeRootResponse,
};

fn run(events: Vec<RootUpdateEvent>) -> Vec<RootUpdateAction> {
    let (mut state, first) = start_root_update(SetWorktreeRootRequest {
        worktree_root: "/new/root".to_string(),
    });
    let mut actions = vec![first];
    for event in events {
        if state == RootUpdateState::Finished {
            break;
        }
        let (next, action) = advance_root_update(state, event);
        state = next;
        actions.push(action);
    }
    actions
}

#[test]
fn reports_configured_root() {
    assert_eq!(
        desktop_config_response("/data/worktrees".to_string()).worktree_root,
        "/data/worktrees"
    );
}

#[test]
fn successful_update_persists_then_responds() {
    let actions = run(vec![
        RootUpdateEvent::SnapshotRead("/old/root".to_string()),
        RootUpdateEvent::Succeeded,
        RootUpdateEvent::Succeeded,
        RootUpdateEvent::Succeeded,
    ]);
    assert_eq!(
        actions,
        vec![
            RootUpdateAction::ReadConfigSnapshot,
            RootUpdateAction::ValidateRoot("/new/root".to_string()),
            RootUpdateAction::SetBackendRoot("/new/root".to_string()),
            RootUpdateAction::SaveConfigRoot("/new/root".to_string()),
            RootUpdateAction::Respond(SetWorktreeRootResponse {
                worktree_root: "/new/root".to_string()
            }),
        ]
    );
}

#[test]
fn failed_persistence_restores_previous_root() {
    let actions = run(vec![
        RootUpdateEvent::SnapshotRead("/old/root".to_string()),
        RootUpdateEvent::Succeeded,
        RootUpdateEvent::Succeeded,
        RootUpdateEvent::Failed,
        RootUpdateEvent::Failed,
    ]);
    assert_eq!(
        actions[4..],
        [
            RootUpdateAction::RestoreBackendRoot("/old/root".to_string()),
            RootUpdateAction::Fail(RootUpdateFailure::ConfigNotSaved),
        ]
    );
}

#[test]
fn earlier_failures_stop_the_update() {
    assert_eq!(
        run(vec![RootUpdateEvent::Failed]).last(),
        Some(&RootUpdateAction::Fail(RootUpdateFailure::SnapshotUnavailable))
    );
    assert_eq!(
        run(vec![
            RootUpdateEvent::SnapshotRead("/old/root".to_string()),
            RootUpdateEvent::Failed,
            RootUpdateEvent::Succeeded,
        ]),
        vec![
            RootUpdateAction::ReadConfigSnapshot,
            RootUpdateAction::ValidateRoot("/new/root".to_string()),
            RootUpdateAction::Fail(RootUpdateFailure::InvalidRoot),
        ]
    );
    assert_eq!(
        run(vec![
            RootUpdateEvent::SnapshotRead("/old/root".to_string()),
            RootUpdateEvent::Succeeded,
            RootUpdateEvent::Failed,
        ])
        .last(),
        Some(&RootUpdateAction::Fail(RootUpdateFailure::BackendRejected))
    );
}
