use vstd::prelude::*;

verus! {

/// Names the provider CLI of a session in app-facing payloads.
#[derive(Clone, Copy, Debug, PartialEq, Eq, Structural)]
pub enum AgentCli {
    OpenCode,
    Nga,
    CodeAgentCli,
}

/// Reports whether a session's agent process is running in app-facing payloads.
#[derive(Clone, Copy, Debug, PartialEq, Eq, Structural)]
pub enum SessionStatus {
    Running,
    Stopped,
}

/// Describes one session as adapters and frontends see it.
#[derive(Clone, Debug, PartialEq, Eq)]
pub struct Session {
    pub id: String,
    pub task_id: String,
    pub agent_cli: AgentCli,
    pub status: SessionStatus,
}

} // verus!
