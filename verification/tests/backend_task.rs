use ora::application::error::{project_repository_error, ApplicationError, ProjectRepositoryError};
use ora::backend::error::BackendErrorKind;
use ora::backend::task::{
    delete_task, find_project, task_creation_context, worktree_root_snapshot, CascadeDeleteOutcome,
};
use ora::contracts::task::DeleteTaskRequest;
use ora::domain::ids::ProjectId;

fn request() -> DeleteTaskRequest {
    DeleteTaskRequest {
        task_id: "task-7".to_string(),
    }
}

#[test]
fn deleted_task_answers_with_its_identifier() {
    let response = delete_task::<()>(request(), Ok(CascadeDeleteOutcome::Deleted)).unwrap();
    assert_eq!(response.task_id, "task-7");
}

#[test]
fn missing_task_answers_not_found() {
    let error = delete_task::<()>(request(), Ok(CascadeDeleteOutcome::NotFound)).unwrap_err();
    assert_eq!(error.kind, BackendErrorKind::NotFound);
    assert_eq!(error.code, "task_not_found");
    assert_eq!(error.message, "task not found: task-7");
}

#[test]
fn running_session_blocks_deletion() {
    let error =
        delete_task::<()>(request(), Ok(CascadeDeleteOutcome::ActiveSession)).unwrap_err();
    assert_eq!(error.kind, BackendErrorKind::Conflict);
    assert_eq!(error.code, "resource_in_use");
    assert_eq!(
        error.message,
        "task has a running session and cannot be deleted"
    );
}

#[test]
fn repository_failure_is_internal() {
    let error = delete_task(request(), Err("disk full")).unwrap_err();
    assert_eq!(error.kind, BackendErrorKind::Internal);
    assert_eq!(error.code, "task_repository_error");
    assert_eq!(error.message, "task repository operation failed");
}

#[test]
fn finds_existing_project() {
    let id = ProjectId::new("project-1".to_string());
    assert_eq!(find_project(&id, Ok(Some(42u32))), Ok(42));
}

#[test]
fn missing_project_is_not_found() {
    let id = ProjectId::new("project-1".to_string());
    assert_eq!(
        find_project::<u32>(&id, Ok(None)),
        Err(ApplicationError::ProjectNotFound {
            project_id: "project-1".to_string()
        })
    );
}

#[test]
fn project_repository_failure_keeps_message() {
    let id = ProjectId::new("project-1".to_string());
    let failure = ProjectRepositoryError::OperationFailed("locked".to_string());
    assert_eq!(
        find_project::<u32>(&id, Err(failure.clone())),
        Err(ApplicationError::ProjectRepository {
            message: "locked".to_string()
        })
    );
    assert_eq!(
        project_repository_error(failure),
        ApplicationError::ProjectRepository {
            message: "locked".to_string()
        }
    );
}

#[test]
fn snapshots_worktree_root() {
    let root = "/data/worktrees".to_string();
    assert_eq!(worktree_root_snapshot(Some(&root)), Ok(root.clone()));
    assert_eq!(
        worktree_root_snapshot(None),
        Err(ApplicationError::TaskWorktree {
            message: "worktree root configuration is unavailable".to_string()
        })
    );
}

#[test]
fn task_creation_looks_up_project_before_root() {
    let id = ProjectId::new("project-1".to_string());
    let root = "/data/worktrees".to_string();
    assert_eq!(
        task_creation_context(&id, Ok(Some("project")), Some(&root)),
        Ok(("project", root.clone()))
    );
    assert_eq!(
        task_creation_context::<&str>(&id, Ok(None), None),
        Err(ApplicationError::ProjectNotFound {
            project_id: "project-1".to_string()
        })
    );
    assert_eq!(
        task_creation_context(&id, Ok(Some("project")), None),
        Err(ApplicationError::TaskWorktree {
            message: "worktree root configuration is unavailable".to_string()
        })
    );
}
