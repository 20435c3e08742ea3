use vstd::prelude::*;

verus! {

/// Failures reported by the project repository port.
#[derive(Clone, Debug, PartialEq, Eq)]
pub enum ProjectRepositoryError {
    /// The repository operation failed, with a description of why.
    OperationFailed(String),
}

/// Failures of application use cases, as reported to runtime adapters.
#[derive(Clone, Debug, PartialEq, Eq)]
pub enum ApplicationError {
    /// No visible project has the requested identifier.
    ProjectNotFound { project_id: String },
    /// The project repository failed.
    ProjectRepository { message: String },
    /// The task's Git worktree could not be prepared.
    TaskWorktree { message: String },
}

/// Converts project repository failures encountered during dynamic task routing.
pub fn project_repository_error(error: ProjectRepositoryError) -> (res: ApplicationError)
    ensures
        match error {
            ProjectRepositoryError::OperationFailed(message) => res == (ApplicationError::ProjectRepository { message }),
        },
{
    match error {
        ProjectRepositoryError::OperationFailed(message) => ApplicationError::ProjectRepository { message },
    }
}

} // verus!
