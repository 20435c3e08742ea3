use vstd::prelude::*;

use crate::contracts::worktree::{
    DeleteWorktreeRequest, GetWorktreeRequest, ListWorktreesRequest, UpdateWorktreeRequest,
    WorktreeActivity,
};

verus! {

/// Carries the request path segment used by worktree identifier routes.
#[derive(Clone, Debug, PartialEq, Eq)]
pub struct WorktreePath {
    pub worktree_id: String,
}

/// Carries the HTTP body used for worktree update routes before the path
/// identifier is applied.
#[derive(Clone, Debug, PartialEq, Eq)]
pub struct UpdateWorktreeBody {
    pub task_id: String,
    pub branch_name: Option<String>,
    pub activity: WorktreeActivity,
}

/// Builds the lookup request of one worktree from the path identifier.
pub fn get_worktree_request(path: WorktreePath) -> (request: GetWorktreeRequest)
    ensures
        request.worktree_id == path.worktree_id,
{
    GetWorktreeRequest { worktree_id: path.worktree_id }
}

/// Builds the request that lists every visible worktree.
pub fn list_worktrees_request() -> (request: ListWorktreesRequest)
    ensures
        request == (ListWorktreesRequest {}),
{
    ListWorktreesRequest {}
}

/// Builds the replacement request of one worktree by combining the route
/// identifier with the JSON body payload.
pub fn update_worktree_request(path: WorktreePath, body: UpdateWorktreeBody) -> (request: UpdateWorktreeRequest)
    ensures
        request.worktree_id == path.worktree_id,
        request.task_id == body.task_id,
        request.branch_name == body.branch_name,
        request.activity == body.activity,
{
    UpdateWorktreeRequest {
        worktree_id: path.worktree_id,
        task_id: body.task_id,
        branch_name: body.branch_name,
        activity: body.activity,
    }
}

/// Builds the deletion request of one worktree from the path identifier.
pub fn delete_worktree_request(path: WorktreePath) -> (request: DeleteWorktreeRequest)
    ensures
        request.worktree_id == path.worktree_id,
{
    DeleteWorktreeRequest { worktree_id: path.worktree_id }
}

} // verus!
