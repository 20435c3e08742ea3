use ora::contracts::worktree::{ListWorktreesRequest, WorktreeActivity};
use ora::web::bootstrap::{
    backend_paths, backend_paths_for_database, home_directory_for, timestamp_millis_from_elapsed,
    web_backend_bootstrap_error, BackendBootstrapError, SystemClock, WebBootstrapError,
};
use ora::web::routes::{
    endpoint_route_of, path_template_of, router_endpoints, Endpoint, HttpMethod, RoutePath,
};
use ora::web::worktrees::{
    delete_worktree_request, get_worktree_request, list_worktrees_request,
    update_worktree_request, UpdateWorktreeBody, WorktreePath,
};

#[test]
fn collects_backend_paths() {
    let paths = backend_paths("/data/ora.sqlite3", "/data/worktrees", "/home/user");
    assert_eq!(paths.database_path, "/data/ora.sqlite3");
    assert_eq!(paths.worktree_root, "/data/worktrees");
    assert_eq!(paths.home_directory, "/home/user");
}

#[test]
fn explicit_paths_use_the_project_parent_as_home() {
    let paths = backend_paths_for_database("/tmp/x/ora.sqlite3", "/tmp/x/project", "/tmp/x/work");
    assert_eq!(paths.database_path, "/tmp/x/ora.sqlite3");
    assert_eq!(paths.worktree_root, "/tmp/x/work");
    assert_eq!(paths.home_directory, "/tmp/x");
    assert_eq!(home_directory_for("/"), "/");
    assert_eq!(home_directory_for("project"), "");
    assert_eq!(home_directory_for(""), "");
}

#[test]
fn maps_backend_bootstrap_errors() {
    let directory: BackendBootstrapError<&str, u8, bool> = BackendBootstrapError::DirectoryCreate {
        path: "/data".to_string(),
        source: "denied",
    };
    assert_eq!(
        web_backend_bootstrap_error(directory),
        WebBootstrapError::DataDirectoryCreate("denied")
    );
    let database: BackendBootstrapError<&str, u8, bool> = BackendBootstrapError::Database(7);
    assert_eq!(
        web_backend_bootstrap_error(database),
        WebBootstrapError::DatabaseBootstrap(7)
    );
    let runtime: BackendBootstrapError<&str, u8, bool> = BackendBootstrapError::AgentRuntime(true);
    assert_eq!(
        web_backend_bootstrap_error(runtime),
        WebBootstrapError::BackendRuntimeBootstrap(true)
    );
}

#[test]
fn audit_timestamps_from_elapsed_time() {
    assert_eq!(timestamp_millis_from_elapsed(None), 0);
    assert_eq!(timestamp_millis_from_elapsed(Some(1_700_000_000_123)), 1_700_000_000_123);
    assert_eq!(timestamp_millis_from_elapsed(Some(u128::MAX)), -1);
    assert!(SystemClock.now_timestamp_millis().0 > 1_600_000_000_000);
}

#[test]
fn worktree_routes_combine_path_and_body() {
    let get = get_worktree_request(WorktreePath { worktree_id: "worktree-1".to_string() });
    assert_eq!(get.worktree_id, "worktree-1");
    let delete = delete_worktree_request(WorktreePath { worktree_id: "worktree-2".to_string() });
    assert_eq!(delete.worktree_id, "worktree-2");
    assert_eq!(list_worktrees_request(), ListWorktreesRequest {});
    let update = update_worktree_request(
        WorktreePath { worktree_id: "worktree-1".to_string() },
        UpdateWorktreeBody {
            task_id: "task-2".to_string(),
            branch_name: Some("feature/updated-branch".to_string()),
            activity: WorktreeActivity::Inactive,
        },
    );
    assert_eq!(update.worktree_id, "worktree-1");
    assert_eq!(update.task_id, "task-2");
    assert_eq!(update.branch_name.as_deref(), Some("feature/updated-branch"));
    assert_eq!(update.activity, WorktreeActivity::Inactive);
}

#[test]
fn router_serves_every_endpoint_once_per_route() {
    let endpoints = router_endpoints();
    assert_eq!(endpoints.len(), 22);
    let mut routes = Vec::new();
    for endpoint in &endpoints {
        let (method, path) = endpoint_route_of(*endpoint);
        let route = (method, path_template_of(path));
        assert!(!routes.contains(&route));
        routes.push(route);
    }
    assert_eq!(endpoint_route_of(Endpoint::Liveness), (HttpMethod::Get, RoutePath::Liveness));
    assert_eq!(path_template_of(RoutePath::Liveness), "/health/live");
    assert_eq!(
        endpoint_route_of(Endpoint::UpdateWorktree),
        (HttpMethod::Put, RoutePath::Worktree)
    );
    assert_eq!(path_template_of(RoutePath::Worktree), "/api/worktrees/{worktree_id}");
    assert_eq!(
        endpoint_route_of(Endpoint::CreateSession),
        (HttpMethod::Post, RoutePath::Sessions)
    );
    assert_eq!(path_template_of(RoutePath::Projects), "/api/projects");
}
