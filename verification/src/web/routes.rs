use vstd::prelude::*;

verus! {

/// Path of the liveness probe.
pub const LIVENESS_PATH: &'static str = "/health/live";

/// Path of the readiness probe.
pub const READINESS_PATH: &'static str = "/health/ready";

/// Collection path of projects.
pub const PROJECTS_PATH: &'static str = "/api/projects";

/// Item path of one project.
pub const PROJECT_PATH: &'static str = "/api/projects/{project_id}";

/// Collection path of tasks.
pub const TASKS_PATH: &'static str = "/api/tasks";

/// Item path of one task.
pub const TASK_PATH: &'static str = "/api/tasks/{task_id}";

/// Collection path of worktrees.
pub const WORKTREES_PATH: &'static str = "/api/worktrees";

/// Item path of one worktree.
pub const WORKTREE_PATH: &'static str = "/api/worktrees/{worktree_id}";

/// Collection path of sessions.
pub const SESSIONS_PATH: &'static str = "/api/sessions";

/// Item path of one session.
pub const SESSION_PATH: &'static str = "/api/sessions/{session_id}";

/// The HTTP methods the web server routes.
#[derive(Clone, Copy, Debug, PartialEq, Eq, Structural)]
pub enum HttpMethod {
    Get,
    Post,
    Put,
    Delete,
}

/// The paths the web server routes, before their templates are spelled out.
#[derive(Clone, Copy, Debug, PartialEq, Eq, Structural)]
pub enum RoutePath {
    Liveness,
    Readiness,
    Projects,
    Project,
    Tasks,
    Task,
    Worktrees,
    Worktree,
    Sessions,
    Session,
}

/// Every operation the web server's router serves.
#[derive(Clone, Copy, Debug, PartialEq, Eq, Structural)]
pub enum Endpoint {
    Liveness,
    Readiness,
    CreateProject,
    ListProjects,
    GetProject,
    UpdateProject,
    DeleteProject,
    CreateTask,
    ListTasks,
    GetTask,
    UpdateTask,
    DeleteTask,
    CreateWorktree,
    ListWorktrees,
    GetWorktree,
    UpdateWorktree,
    DeleteWorktree,
    CreateSession,
    ListSessions,
    GetSession,
    UpdateSession,
    DeleteSession,
}

/// The method and path an operation is served at: collections take `POST` to
/// create and `GET` to list, items take `GET`, `PUT` and `DELETE`.
pub open spec fn endpoint_route(endpoint: Endpoint) -> (HttpMethod, RoutePath) {
    match endpoint {
        Endpoint::Liveness => (HttpMethod::Get, RoutePath::Liveness),
        Endpoint::Readiness => (HttpMethod::Get, RoutePath::Readiness),
        Endpoint::CreateProject => (HttpMethod::Post, RoutePath::Projects),
        Endpoint::ListProjects => (HttpMethod::Get, RoutePath::Projects),
        Endpoint::GetProject => (HttpMethod::Get, RoutePath::Project),
        Endpoint::UpdateProject => (HttpMethod::Put, RoutePath::Project),
        Endpoint::DeleteProject => (HttpMethod::Delete, RoutePath::Project),
        Endpoint::CreateTask => (HttpMethod::Post, RoutePath::Tasks),
        Endpoint::ListTasks => (HttpMethod::Get, RoutePath::Tasks),
        Endpoint::GetTask => (HttpMethod::Get, RoutePath::Task),
        Endpoint::UpdateTask => (HttpMethod::Put, RoutePath::Task),
        Endpoint::DeleteTask => (HttpMethod::Delete, RoutePath::Task),
        Endpoint::CreateWorktree => (HttpMethod::Post, RoutePath::Worktrees),
        Endpoint::ListWorktrees => (HttpMethod::Get, RoutePath::Worktrees),
        Endpoint::GetWorktree => (HttpMethod::Get, RoutePath::Worktree),
        Endpoint::UpdateWorktree => (HttpMethod::Put, RoutePath::Worktree),
        Endpoint::DeleteWorktree => (HttpMethod::Delete, RoutePath::Worktree),
        Endpoint::CreateSession => (HttpMethod::Post, RoutePath::Sessions),
        Endpoint::ListSessions => (HttpMethod::Get, RoutePath::Sessions),
        Endpoint::GetSession => (HttpMethod::Get, RoutePath::Session),
        Endpoint::UpdateSession => (HttpMethod::Put, RoutePath::Session),
        Endpoint::DeleteSession => (HttpMethod::Delete, RoutePath::Session),
    }
}

/// The template text of a routed path.
pub open spec fn path_template(path: RoutePath) -> Seq<char> {
    match path {
        RoutePath::Liveness => LIVENESS_PATH@,
        RoutePath::Readiness => READINESS_PATH@,
        RoutePath::Projects => PROJECTS_PATH@,
        RoutePath::Project => PROJECT_PATH@,
        RoutePath::Tasks => TASKS_PATH@,
        RoutePath::Task => TASK_PATH@,
        RoutePath::Worktrees => WORKTREES_PATH@,
        RoutePath::Worktree => WORKTREE_PATH@,
        RoutePath::Sessions => SESSIONS_PATH@,
        RoutePath::Session => SESSION_PATH@,
    }
}

/// The persisted resources the web server serves CRUD operations for.
#[derive(Clone, Copy, Debug, PartialEq, Eq, Structural)]
pub enum Resource {
    Project,
    Task,
    Worktree,
    Session,
}

/// The CRUD operations the web server serves on each resource.
#[derive(Clone, Copy, Debug, PartialEq, Eq, Structural)]
pub enum CrudOperation {
    Create,
    List,
    Get,
    Update,
    Delete,
}

/// The resource and CRUD operation an endpoint performs, as its name says;
/// `None` for the health probes.
pub open spec fn endpoint_operation(endpoint: Endpoint) -> Option<(Resource, CrudOperation)> {
    match endpoint {
        Endpoint::Liveness => None,
        Endpoint::Readiness => None,
        Endpoint::CreateProject => Some((Resource::Project, CrudOperation::Create)),
        Endpoint::ListProjects => Some((Resource::Project, CrudOperation::List)),
        Endpoint::GetProject => Some((Resource::Project, CrudOperation::Get)),
        Endpoint::UpdateProject => Some((Resource::Project, CrudOperation::Update)),
        Endpoint::DeleteProject => Some((Resource::Project, CrudOperation::Delete)),
        Endpoint::CreateTask => Some((Resource::Task, CrudOperation::Create)),
        Endpoint::ListTasks => Some((Resource::Task, CrudOperation::List)),
        Endpoint::GetTask => Some((Resource::Task, CrudOperation::Get)),
        Endpoint::UpdateTask => Some((Resource::Task, CrudOperation::Update)),
        Endpoint::DeleteTask => Some((Resource::Task, CrudOperation::Delete)),
        Endpoint::CreateWorktree => Some((Resource::Worktree, CrudOperation::Create)),
        Endpoint::ListWorktrees => Some((Resource::Worktree, CrudOperation::List)),
        Endpoint::GetWorktree => Some((Resource::Worktree, CrudOperation::Get)),
        Endpoint::UpdateWorktree => Some((Resource::Worktree, CrudOperation::Update)),
        Endpoint::DeleteWorktree => Some((Resource::Worktree, CrudOperation::Delete)),
        Endpoint::CreateSession => Some((Resource::Session, CrudOperation::Create)),
        Endpoint::ListSessions => Some((Resource::Session, CrudOperation::List)),
        Endpoint::GetSession => Some((Resource::Session, CrudOperation::Get)),
        Endpoint::UpdateSession => Some((Resource::Session, CrudOperation::Update)),
        Endpoint::DeleteSession => Some((Resource::Session, CrudOperation::Delete)),
    }
}

/// The HTTP method of each CRUD operation: `POST` creates, `GET` lists and
/// reads, `PUT` replaces, `DELETE` deletes.
pub open spec fn crud_method(operation: CrudOperation) -> HttpMethod {
    match operation {
        CrudOperation::Create => HttpMethod::Post,
        CrudOperation::List => HttpMethod::Get,
        CrudOperation::Get => HttpMethod::Get,
        CrudOperation::Update => HttpMethod::Put,
        CrudOperation::Delete => HttpMethod::Delete,
    }
}

/// Whether an operation addresses the whole collection rather than one item.
pub open spec fn on_collection(operation: CrudOperation) -> bool {
    operation == CrudOperation::Create || operation == CrudOperation::List
}

/// The collection path of a resource.
pub open spec fn collection_path(resource: Resource) -> RoutePath {
    match resource {
        Resource::Project => RoutePath::Projects,
        Resource::Task => RoutePath::Tasks,
        Resource::Worktree => RoutePath::Worktrees,
        Resource::Session => RoutePath::Sessions,
    }
}

/// The item path of a resource.
pub open spec fn item_path(resource: Resource) -> RoutePath {
    match resource {
        Resource::Project => RoutePath::Project,
        Resource::Task => RoutePath::Task,
        Resource::Worktree => RoutePath::Worktree,
        Resource::Session => RoutePath::Session,
    }
}

/// The name of the path parameter that identifies one item of a resource.
pub open spec fn item_parameter(resource: Resource) -> Seq<char> {
    match resource {
        Resource::Project => "project_id"@,
        Resource::Task => "task_id"@,
        Resource::Worktree => "worktree_id"@,
        Resource::Session => "session_id"@,
    }
}

/// Whether a route serves what the endpoint's name says: a CRUD operation at
/// its HTTP method, on the collection path for creating and listing and on the
/// item path otherwise, and a health probe with `GET` on its own path.
pub open spec fn serves_named_operation(endpoint: Endpoint, route: (HttpMethod, RoutePath)) -> bool {
    match endpoint_operation(endpoint) {
        Some((resource, operation)) => route == (
            crud_method(operation),
            if on_collection(operation) { collection_path(resource) } else { item_path(resource) },
        ),
        None => route.0 == HttpMethod::Get && (endpoint == Endpoint::Liveness ==> route.1 == RoutePath::Liveness)
            && (endpoint == Endpoint::Readiness ==> route.1 == RoutePath::Readiness),
    }
}

/// Every endpoint is served at the HTTP method and path its name calls for:
/// creating `POST`s and listing `GET`s the collection path, reading `GET`s,
/// replacing `PUT`s and deleting `DELETE`s the item path, and the probes are
/// `GET`s on their own paths.
pub proof fn lemma_routes_serve_named_operations(endpoint: Endpoint)
    ensures
        serves_named_operation(endpoint, endpoint_route(endpoint)),
{
}

/// Each item path is its collection path followed by one path parameter that
/// names the item's identifier.
pub proof fn lemma_item_paths_extend_collections(resource: Resource)
    ensures
        path_template(item_path(resource)) == path_template(collection_path(resource)) + "/{"@
            + item_parameter(resource) + "}"@,
{
    reveal_strlit("/api/projects");
    reveal_strlit("/api/projects/{project_id}");
    reveal_strlit("/api/tasks");
    reveal_strlit("/api/tasks/{task_id}");
    reveal_strlit("/api/worktrees");
    reveal_strlit("/api/worktrees/{worktree_id}");
    reveal_strlit("/api/sessions");
    reveal_strlit("/api/sessions/{session_id}");
    reveal_strlit("/{");
    reveal_strlit("}");
    reveal_strlit("project_id");
    reveal_strlit("task_id");
    reveal_strlit("worktree_id");
    reveal_strlit("session_id");
    let item = path_template(item_path(resource));
    let built = path_template(collection_path(resource)) + "/{"@ + item_parameter(resource) + "}"@;
    assert(item =~= built);
}

/// Returns the method and path an operation is served at.
pub fn endpoint_route_of(endpoint: Endpoint) -> (route: (HttpMethod, RoutePath))
    ensures
        route == endpoint_route(endpoint),
        serves_named_operation(endpoint, route),
{
    match endpoint {
        Endpoint::Liveness => (HttpMethod::Get, RoutePath::Liveness),
        Endpoint::Readiness => (HttpMethod::Get, RoutePath::Readiness),
        Endpoint::CreateProject => (HttpMethod::Post, RoutePath::Projects),
        Endpoint::ListProjects => (HttpMethod::Get, RoutePath::Projects),
        Endpoint::GetProject => (HttpMethod::Get, RoutePath::Project),
        Endpoint::UpdateProject => (HttpMethod::Put, RoutePath::Project),
        Endpoint::DeleteProject => (HttpMethod::Delete, RoutePath::Project),
        Endpoint::CreateTask => (HttpMethod::Post, RoutePath::Tasks),
        Endpoint::ListTasks => (HttpMethod::Get, RoutePath::Tasks),
        Endpoint::GetTask => (HttpMethod::Get, RoutePath::Task),
        Endpoint::UpdateTask => (HttpMethod::Put, RoutePath::Task),
        Endpoint::DeleteTask => (HttpMethod::Delete, RoutePath::Task),
        Endpoint::CreateWorktree => (HttpMethod::Post, RoutePath::Worktrees),
        Endpoint::ListWorktrees => (HttpMethod::Get, RoutePath::Worktrees),
        Endpoint::GetWorktree => (HttpMethod::Get, RoutePath::Worktree),
        Endpoint::UpdateWorktree => (HttpMethod::Put, RoutePath::Worktree),
        Endpoint::DeleteWorktree => (HttpMethod::Delete, RoutePath::Worktree),
        Endpoint::CreateSession => (HttpMethod::Post, RoutePath::Sessions),
        Endpoint::ListSessions => (HttpMethod::Get, RoutePath::Sessions),
        Endpoint::GetSession => (HttpMethod::Get, RoutePath::Session),
        Endpoint::UpdateSession => (HttpMethod::Put, RoutePath::Session),
        Endpoint::DeleteSession => (HttpMethod::Delete, RoutePath::Session),
    }
}

/// Returns the template text of a routed path.
pub fn path_template_of(path: RoutePath) -> (template: &'static str)
    ensures
        template@ == path_template(path),
{
    match path {
        RoutePath::Liveness => LIVENESS_PATH,
        RoutePath::Readiness => READINESS_PATH,
        RoutePath::Projects => PROJECTS_PATH,
        RoutePath::Project => PROJECT_PATH,
        RoutePath::Tasks => TASKS_PATH,
        RoutePath::Task => TASK_PATH,
        RoutePath::Worktrees => WORKTREES_PATH,
        RoutePath::Worktree => WORKTREE_PATH,
        RoutePath::Sessions => SESSIONS_PATH,
        RoutePath::Session => SESSION_PATH,
    }
}

/// The operations of the router, in the order they are registered.
pub open spec fn router_endpoint_list() -> Seq<Endpoint> {
    seq![
        Endpoint::Liveness,
        Endpoint::Readiness,
        Endpoint::CreateProject,
        Endpoint::ListProjects,
        Endpoint::GetProject,
        Endpoint::UpdateProject,
        Endpoint::DeleteProject,
        Endpoint::CreateTask,
        Endpoint::ListTasks,
        Endpoint::GetTask,
        Endpoint::UpdateTask,
        Endpoint::DeleteTask,
        Endpoint::CreateWorktree,
        Endpoint::ListWorktrees,
        Endpoint::GetWorktree,
        Endpoint::UpdateWorktree,
        Endpoint::DeleteWorktree,
        Endpoint::CreateSession,
        Endpoint::ListSessions,
        Endpoint::GetSession,
        Endpoint::UpdateSession,
        Endpoint::DeleteSession,
    ]
}

/// Returns the operations of the router for health checks and the persisted
/// CRUD routes, in the order they are registered.
pub fn router_endpoints() -> (endpoints: Vec<Endpoint>)
    ensures
        endpoints@ == router_endpoint_list(),
{
    let endpoints = vec![
        Endpoint::Liveness,
        Endpoint::Readiness,
        Endpoint::CreateProject,
        Endpoint::ListProjects,
        Endpoint::GetProject,
        Endpoint::UpdateProject,
        Endpoint::DeleteProject,
        Endpoint::CreateTask,
        Endpoint::ListTasks,
        Endpoint::GetTask,
        Endpoint::UpdateTask,
        Endpoint::DeleteTask,
        Endpoint::CreateWorktree,
        Endpoint::ListWorktrees,
        Endpoint::GetWorktree,
        Endpoint::UpdateWorktree,
        Endpoint::DeleteWorktree,
        Endpoint::CreateSession,
        Endpoint::ListSessions,
        Endpoint::GetSession,
        Endpoint::UpdateSession,
        Endpoint::DeleteSession,
    ];
    assert(endpoints@ =~= router_endpoint_list());
    endpoints
}

/// Distinct routed paths have distinct template texts.
pub proof fn lemma_path_templates_distinct(p: RoutePath, q: RoutePath)
    requires
        p != q,
    ensures
        path_template(p) != path_template(q),
{
    reveal_strlit("/health/live");
    reveal_strlit("/health/ready");
    reveal_strlit("/api/projects");
    reveal_strlit("/api/projects/{project_id}");
    reveal_strlit("/api/tasks");
    reveal_strlit("/api/tasks/{task_id}");
    reveal_strlit("/api/worktrees");
    reveal_strlit("/api/worktrees/{worktree_id}");
    reveal_strlit("/api/sessions");
    reveal_strlit("/api/sessions/{session_id}");
    let a = path_template(p);
    let b = path_template(q);
    assert(a.len() != b.len() || a[5] != b[5]);
}

/// No two operations share a method on the same path template, so the router
/// never registers a method twice on one path.
pub proof fn lemma_routes_distinct(a: Endpoint, b: Endpoint)
    requires
        a != b,
    ensures
        endpoint_route(a).0 != endpoint_route(b).0 || path_template(endpoint_route(a).1) != path_template(endpoint_route(b).1),
{
    if endpoint_route(a).1 != endpoint_route(b).1 {
        lemma_path_templates_distinct(endpoint_route(a).1, endpoint_route(b).1);
    }
}

/// The router registers every operation, and each exactly once.
pub proof fn lemma_router_lists_every_endpoint(endpoint: Endpoint)
    ensures
        router_endpoint_list().contains(endpoint),
        forall|i: int, j: int|
            0 <= i < j < router_endpoint_list().len() ==> router_endpoint_list()[i] != router_endpoint_list()[j],
{
    let list = router_endpoint_list();
    assert(list.contains(endpoint)) by {
        match endpoint {
            Endpoint::Liveness => assert(list[0] == endpoint),
            Endpoint::Readiness => assert(list[1] == endpoint),
            Endpoint::CreateProject => assert(list[2] == endpoint),
            Endpoint::ListProjects => assert(list[3] == endpoint),
            Endpoint::GetProject => assert(list[4] == endpoint),
            Endpoint::UpdateProject => assert(list[5] == endpoint),
            Endpoint::DeleteProject => assert(list[6] == endpoint),
            Endpoint::CreateTask => assert(list[7] == endpoint),
            Endpoint::ListTasks => assert(list[8] == endpoint),
            Endpoint::GetTask => assert(list[9] == endpoint),
            Endpoint::UpdateTask => assert(list[10] == endpoint),
            Endpoint::DeleteTask => assert(list[11] == endpoint),
            Endpoint::CreateWorktree => assert(list[12] == endpoint),
            Endpoint::ListWorktrees => assert(list[13] == endpoint),
            Endpoint::GetWorktree => assert(list[14] == endpoint),
            Endpoint::UpdateWorktree => assert(list[15] == endpoint),
            Endpoint::DeleteWorktree => assert(list[16] == endpoint),
            Endpoint::CreateSession => assert(list[17] == endpoint),
            Endpoint::ListSessions => assert(list[18] == endpoint),
            Endpoint::GetSession => assert(list[19] == endpoint),
            Endpoint::UpdateSession => assert(list[20] == endpoint),
            Endpoint::DeleteSession => assert(list[21] == endpoint),
        }
    }
}

} // verus!
