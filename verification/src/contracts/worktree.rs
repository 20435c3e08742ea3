use vstd::prelude::*;

verus! {

/// Describes whether the public worktree view is active for its task.
#[derive(Clone, Copy, Debug, PartialEq, Eq, Hash, Structural)]
pub enum WorktreeActivity {
    Inactive,
    Active,
}

/// Describes the public worktree payload shared across adapter responses.
#[derive(Clone, Debug, PartialEq, Eq)]
pub struct Worktree {
    pub id: String,
    pub task_id: String,
    pub branch_name: Option<String>,
    pub activity: WorktreeActivity,
}

/// Carries the app-facing payload for worktree creation requests.
#[derive(Clone, Debug, PartialEq, Eq)]
pub struct CreateWorktreeRequest {
    pub task_id: String,
    pub branch_name: Option<String>,
    pub activity: WorktreeActivity,
}

/// Returns the created worktree after a successful create request.
#[derive(Clone, Debug, PartialEq, Eq)]
pub struct CreateWorktreeResponse {
    pub worktree: Worktree,
}

/// Identifies which worktree to fetch.
#[derive(Clone, Debug, PartialEq, Eq)]
pub struct GetWorktreeRequest {
    pub worktree_id: String,
}

/// Returns one worktree payload after a successful fetch.
#[derive(Clone, Debug, PartialEq, Eq)]
pub struct GetWorktreeResponse {
    pub worktree: Worktree,
}

/// Requests the full visible worktree list.
#[derive(Clone, Debug, Default, PartialEq, Eq)]
pub struct ListWorktreesRequest {}

/// Returns the visible worktree list.
#[derive(Clone, Debug, PartialEq, Eq)]
pub struct ListWorktreesResponse {
    pub worktrees: Vec<Worktree>,
}

/// Carries the full replacement payload for worktree updates in the first slice.
#[derive(Clone, Debug, PartialEq, Eq)]
pub struct UpdateWorktreeRequest {
    pub worktree_id: String,
    pub task_id: String,
    pub branch_name: Option<String>,
    pub activity: WorktreeActivity,
}

/// Returns the updated worktree after a successful update request.
#[derive(Clone, Debug, PartialEq, Eq)]
pub struct UpdateWorktreeResponse {
    pub worktree: Worktree,
}

/// Identifies which worktree to delete.
#[derive(Clone, Debug, PartialEq, Eq)]
pub struct DeleteWorktreeRequest {
    pub worktree_id: String,
}

/// Returns the deleted worktree identifier after a successful delete request.
#[derive(Clone, Debug, PartialEq, Eq)]
pub struct DeleteWorktreeResponse {
    pub worktree_id: String,
}

} // verus!
