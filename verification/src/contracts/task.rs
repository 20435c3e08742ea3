use vstd::prelude::*;

verus! {

/// Identifies which task to delete.
#[derive(Clone, Debug, PartialEq, Eq)]
pub struct DeleteTaskRequest {
    pub task_id: String,
}

/// Returns the deleted task identifier after a successful delete request.
#[derive(Clone, Debug, PartialEq, Eq)]
pub struct DeleteTaskResponse {
    pub task_id: String,
}

} // verus!
