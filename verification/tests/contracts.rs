use ora::contracts::acp::plan::{Plan, PlanEntry, PlanEntryPriority, PlanEntryStatus};
use ora::contracts::acp::terminal::{KillTerminalResponse, ReleaseTerminalResponse};
use ora::contracts::worktree::{
    CreateWorktreeResponse, GetWorktreeResponse, ListWorktreesRequest, ListWorktreesResponse,
    UpdateWorktreeResponse, Worktree, WorktreeActivity,
};

/// Confirms the shared worktree view remains the single reusable payload across responses.
#[test]
fn preserves_shared_worktree_shape_across_responses() {
    let worktree = Worktree {
        id: "worktree-1".to_string(),
        task_id: "task-1".to_string(),
        branch_name: None,
        activity: WorktreeActivity::Inactive,
    };

    assert_eq!(
        CreateWorktreeResponse {
            worktree: worktree.clone(),
        },
        CreateWorktreeResponse {
            worktree: worktree.clone(),
        }
    );
    assert_eq!(
        GetWorktreeResponse {
            worktree: worktree.clone(),
        },
        GetWorktreeResponse {
            worktree: worktree.clone(),
        }
    );
    assert_eq!(
        ListWorktreesResponse {
            worktrees: vec![worktree.clone()],
        },
        ListWorktreesResponse {
            worktrees: vec![worktree.clone()],
        }
    );
    assert_eq!(
        UpdateWorktreeResponse {
            worktree: worktree.clone(),
        },
        UpdateWorktreeResponse { worktree }
    );
}

#[test]
fn empty_payloads_have_defaults() {
    assert_eq!(Plan::default(), Plan { entries: Vec::new() });
    assert_eq!(ListWorktreesRequest::default(), ListWorktreesRequest {});
    assert_eq!(KillTerminalResponse::default(), KillTerminalResponse {});
    assert_eq!(ReleaseTerminalResponse::default(), ReleaseTerminalResponse {});
}

#[test]
fn plan_keeps_entry_order() {
    let plan = Plan {
        entries: vec![
            PlanEntry {
                content: "Find the login function".to_string(),
                priority: PlanEntryPriority::High,
                status: PlanEntryStatus::Completed,
            },
            PlanEntry {
                content: "Add unit tests".to_string(),
                priority: PlanEntryPriority::Low,
                status: PlanEntryStatus::Pending,
            },
        ],
    };
    assert_eq!(plan.entries[0].content, "Find the login function");
    assert_eq!(plan.entries[1].status, PlanEntryStatus::Pending);
    assert_ne!(plan.entries[0], plan.entries[1]);
}
