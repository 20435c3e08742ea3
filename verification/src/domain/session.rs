use vstd::prelude::*;

use crate::domain::ids::{SessionId, TaskId};

verus! {

/// Rejections raised when persisted values do not describe a valid domain model.
#[derive(Clone, Copy, Debug, PartialEq, Eq, Structural)]
pub enum DomainModelError {
    /// The stored agent CLI code is not one of the known codes.
    InvalidAgentCli(i64),
    /// The stored session status code is not one of the known codes.
    InvalidSessionStatus(i64),
}

/// Identifies the provider CLI whose persistent ACP session owns the conversation.
#[derive(Clone, Copy, Debug, PartialEq, Eq, Hash, Structural)]
pub enum AgentCli {
    OpenCode,
    Nga,
    CodeAgentCli,
}

/// Captures whether an agent process is currently running for this session.
#[derive(Clone, Copy, Debug, PartialEq, Eq, Hash, Structural)]
pub enum SessionStatus {
    Running,
    Stopped,
}

/// The integer code that the baseline SQLite schema stores for an agent CLI.
pub open spec fn agent_cli_code(agent_cli: AgentCli) -> i64 {
    match agent_cli {
        AgentCli::OpenCode => 0,
        AgentCli::Nga => 1,
        AgentCli::CodeAgentCli => 2,
    }
}

/// The agent CLI that a stored code denotes, if any.
pub open spec fn agent_cli_from_code(value: i64) -> Option<AgentCli> {
    if value == 0 {
        Some(AgentCli::OpenCode)
    } else if value == 1 {
        Some(AgentCli::Nga)
    } else if value == 2 {
        Some(AgentCli::CodeAgentCli)
    } else {
        None
    }
}

/// The integer code that persistence adapters store for a session status.
pub open spec fn session_status_code(status: SessionStatus) -> i64 {
    match status {
        SessionStatus::Running => 0,
        SessionStatus::Stopped => 1,
    }
}

/// The session status that a stored code denotes, if any.
pub open spec fn session_status_from_code(value: i64) -> Option<SessionStatus> {
    if value == 0 {
        Some(SessionStatus::Running)
    } else if value == 1 {
        Some(SessionStatus::Stopped)
    } else {
        None
    }
}

impl AgentCli {
    /// Returns the stable integer stored by the baseline SQLite schema.
    pub fn database_value(self) -> (code: i64)
        ensures
            code == agent_cli_code(self),
    {
        match self {
            AgentCli::OpenCode => 0,
            AgentCli::Nga => 1,
            AgentCli::CodeAgentCli => 2,
        }
    }

    /// Restores a CLI selection while rejecting unknown persisted values.
    pub fn from_database_value(value: i64) -> (res: Result<AgentCli, DomainModelError>)
        ensures
            agent_cli_from_code(value) matches Some(cli) ==> res == Ok::<AgentCli, DomainModelError>(cli),
            agent_cli_from_code(value) is None ==> res == Err::<AgentCli, DomainModelError>(
                DomainModelError::InvalidAgentCli(value),
            ),
    {
        match value {
            0 => Ok(AgentCli::OpenCode),
            1 => Ok(AgentCli::Nga),
            2 => Ok(AgentCli::CodeAgentCli),
            _ => Err(DomainModelError::InvalidAgentCli(value)),
        }
    }
}

impl SessionStatus {
    /// Returns the integer code used by persistence adapters for this session status.
    pub fn database_value(self) -> (code: i64)
        ensures
            code == session_status_code(self),
    {
        match self {
            SessionStatus::Running => 0,
            SessionStatus::Stopped => 1,
        }
    }

    /// Converts a persisted integer into a strongly typed session status.
    pub fn from_database_value(value: i64) -> (res: Result<SessionStatus, DomainModelError>)
        ensures
            session_status_from_code(value) matches Some(status) ==> res == Ok::<SessionStatus, DomainModelError>(status),
            session_status_from_code(value) is None ==> res == Err::<SessionStatus, DomainModelError>(
                DomainModelError::InvalidSessionStatus(value),
            ),
    {
        match value {
            0 => Ok(SessionStatus::Running),
            1 => Ok(SessionStatus::Stopped),
            _ => Err(DomainModelError::InvalidSessionStatus(value)),
        }
    }
}

/// Decoding the stored code of an agent CLI gives that agent CLI back, and a code
/// decodes to an agent CLI exactly when it is the stored code of that agent CLI.
pub proof fn lemma_agent_cli_code_round_trip(agent_cli: AgentCli, value: i64)
    ensures
        agent_cli_from_code(agent_cli_code(agent_cli)) == Some(agent_cli),
        agent_cli_from_code(value) == Some(agent_cli) <==> agent_cli_code(agent_cli) == value,
        agent_cli_from_code(value) matches Some(decoded) ==> agent_cli_code(decoded) == value,
{
}

/// Decoding the stored code of a session status gives that status back, and a code
/// decodes to a status exactly when it is the stored code of that status.
pub proof fn lemma_session_status_code_round_trip(status: SessionStatus, value: i64)
    ensures
        session_status_from_code(session_status_code(status)) == Some(status),
        session_status_from_code(value) == Some(status) <==> session_status_code(status) == value,
        session_status_from_code(value) matches Some(decoded) ==> session_status_code(decoded) == value,
{
}

/// Distinct agent CLIs never share a stored code.
pub proof fn lemma_agent_cli_codes_distinct(a: AgentCli, b: AgentCli)
    ensures
        agent_cli_code(a) == agent_cli_code(b) <==> a == b,
{
}

/// Distinct session statuses never share a stored code.
pub proof fn lemma_session_status_codes_distinct(a: SessionStatus, b: SessionStatus)
    ensures
        session_status_code(a) == session_status_code(b) <==> a == b,
{
}

/// Timestamps recorded for one persisted row.
#[derive(Clone, Copy, Debug, PartialEq, Eq, Structural)]
pub struct AuditFields {
    pub created_at: i64,
    pub updated_at: i64,
}

/// Represents one provider-backed conversation whose routing fields are immutable.
#[derive(Clone, Debug, PartialEq, Eq)]
pub struct Session {
    pub id: SessionId,
    pub task_id: TaskId,
    pub agent_cli: AgentCli,
    pub agent_session_id: String,
    pub status: SessionStatus,
    pub audit_fields: AuditFields,
}

impl Session {
    /// Creates a session only after the provider has returned its required session identifier.
    pub fn new(
        id: SessionId,
        task_id: TaskId,
        agent_cli: AgentCli,
        agent_session_id: String,
        status: SessionStatus,
        audit_fields: AuditFields,
    ) -> (session: Session)
        ensures
            session.id == id,
            session.task_id == task_id,
            session.agent_cli == agent_cli,
            session.agent_session_id == agent_session_id,
            session.status == status,
            session.audit_fields == audit_fields,
    {
        Session { id, task_id, agent_cli, agent_session_id, status, audit_fields }
    }

    /// Changes only process lifecycle state while preserving immutable provider routing.
    pub fn with_status(self, status: SessionStatus, updated_at: i64) -> (session: Session)
        ensures
            session.id == self.id,
            session.task_id == self.task_id,
            session.agent_cli == self.agent_cli,
            session.agent_session_id == self.agent_session_id,
            session.audit_fields.created_at == self.audit_fields.created_at,
            session.status == status,
            session.audit_fields.updated_at == updated_at,
            session == (Session {
                status,
                audit_fields: AuditFields { updated_at, ..self.audit_fields },
                ..self
            }),
    {
        let mut session = self;
        session.status = status;
        session.audit_fields.updated_at = updated_at;
        session
    }
}

} // verus!
