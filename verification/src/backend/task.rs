use vstd::prelude::*;

use crate::application::error::{project_repository_error, ApplicationError, ProjectRepositoryError};
use crate::backend::error::{backend_error_is, BackendError, BackendErrorKind};
use crate::contracts::task::{DeleteTaskRequest, DeleteTaskResponse};
use crate::domain::ids::{ProjectId, TaskId};

verus! {

/// What the cascading soft delete of a task found.
#[derive(Clone, Copy, Debug, PartialEq, Eq, Structural)]
pub enum CascadeDeleteOutcome {
    /// The task and its worktree record were soft-deleted.
    Deleted,
    /// No visible task has the identifier.
    NotFound,
    /// A session of the task is still running, so nothing was deleted.
    ActiveSession,
}

/// The public answer to a task deletion, given what the cascading repository
/// delete reported for the task `task_id`.
pub open spec fn task_delete_answer<E>(task_id: Seq<char>, outcome: Result<CascadeDeleteOutcome, E>, res: Result<DeleteTaskResponse, BackendError>) -> bool {
    match outcome {
        Err(_) => res matches Err(error) && backend_error_is(
            error,
            BackendErrorKind::Internal,
            "task_repository_error"@,
            "task repository operation failed"@,
        ),
        Ok(CascadeDeleteOutcome::Deleted) => res matches Ok(response) && response.task_id@ == task_id,
        Ok(CascadeDeleteOutcome::NotFound) => res matches Err(error) && backend_error_is(
            error,
            BackendErrorKind::NotFound,
            "task_not_found"@,
            "task not found: "@ + task_id,
        ),
        Ok(CascadeDeleteOutcome::ActiveSession) => res matches Err(error) && backend_error_is(
            error,
            BackendErrorKind::Conflict,
            "resource_in_use"@,
            "task has a running session and cannot be deleted"@,
        ),
    }
}

/// Soft-deletes the task and its worktree record without touching Git state:
/// answers the request from what the cascading repository delete reported,
/// refusing deletion while a session is running.
pub fn delete_task<E>(request: DeleteTaskRequest, outcome: Result<CascadeDeleteOutcome, E>) -> (res: Result<DeleteTaskResponse, BackendError>)
    ensures
        task_delete_answer(request.task_id@, outcome, res),
{
    let task_id = TaskId::new(request.task_id);
    match outcome {
        Err(_) => Err(BackendError::new(
            BackendErrorKind::Internal,
            "task_repository_error".to_string(),
            "task repository operation failed".to_string(),
        )),
        Ok(CascadeDeleteOutcome::Deleted) => Ok(DeleteTaskResponse { task_id: task_id.to_string() }),
        Ok(CascadeDeleteOutcome::NotFound) => {
            let message = "task not found: ".to_string().concat(task_id.as_str());
            Err(BackendError::new(BackendErrorKind::NotFound, "task_not_found".to_string(), message))
        },
        Ok(CascadeDeleteOutcome::ActiveSession) => Err(BackendError::new(
            BackendErrorKind::Conflict,
            "resource_in_use".to_string(),
            "task has a running session and cannot be deleted".to_string(),
        )),
    }
}

/// Answers a project lookup with the same stable not-found error as the project
/// handlers: the project when the repository found it, `ProjectNotFound` when it
/// found none, and the repository's failure otherwise.
pub fn find_project<P>(project_id: &ProjectId, found: Result<Option<P>, ProjectRepositoryError>) -> (res: Result<P, ApplicationError>)
    ensures
        match found {
            Ok(Some(project)) => res == Ok::<P, ApplicationError>(project),
            Ok(None) => (res matches Err(ApplicationError::ProjectNotFound { project_id: id }) && id@ == project_id@),
            Err(ProjectRepositoryError::OperationFailed(message)) => res == Err::<P, ApplicationError>(
                ApplicationError::ProjectRepository { message },
            ),
        },
{
    match found {
        Ok(Some(project)) => Ok(project),
        Ok(None) => Err(ApplicationError::ProjectNotFound { project_id: project_id.to_string() }),
        Err(error) => Err(project_repository_error(error)),
    }
}

/// Captures the configured creation root once, so an in-flight operation stays
/// coherent; `None` stands for a configuration that cannot be read.
pub fn worktree_root_snapshot(root: Option<&String>) -> (res: Result<String, ApplicationError>)
    ensures
        root matches Some(r) ==> (res matches Ok(snapshot) && snapshot@ == r@),
        root is None ==> (res matches Err(ApplicationError::TaskWorktree { message })
            && message@ == "worktree root configuration is unavailable"@),
{
    match root {
        Some(root) => Ok(root.clone()),
        None => Err(ApplicationError::TaskWorktree {
            message: "worktree root configuration is unavailable".to_string(),
        }),
    }
}

/// Gathers what a task creation runs with, in the order it is looked up: the
/// owning project first, then the configured creation root, so a missing project
/// is reported even when the root cannot be read.
pub fn task_creation_context<P>(
    project_id: &ProjectId,
    found: Result<Option<P>, ProjectRepositoryError>,
    root: Option<&String>,
) -> (res: Result<(P, String), ApplicationError>)
    ensures
        match found {
            Ok(Some(project)) => match root {
                Some(r) => (res matches Ok((p, snapshot)) && p == project && snapshot@ == r@),
                None => (res matches Err(ApplicationError::TaskWorktree { message })
                    && message@ == "worktree root configuration is unavailable"@),
            },
            Ok(None) => (res matches Err(ApplicationError::ProjectNotFound { project_id: id }) && id@ == project_id@),
            Err(ProjectRepositoryError::OperationFailed(message)) => res == Err::<(P, String), ApplicationError>(
                ApplicationError::ProjectRepository { message },
            ),
        },
{
    let project = match find_project(project_id, found) {
        Ok(project) => project,
        Err(error) => return Err(error),
    };
    let snapshot = match worktree_root_snapshot(root) {
        Ok(snapshot) => snapshot,
        Err(error) => return Err(error),
    };
    Ok((project, snapshot))
}

} // verus!
