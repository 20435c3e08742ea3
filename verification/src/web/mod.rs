pub mod bootstrap;
pub mod routes;
pub mod worktrees;
