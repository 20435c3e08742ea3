pub mod acp;
pub mod session;
pub mod task;
pub mod worktree;
