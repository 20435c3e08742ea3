use vstd::prelude::*;

use crate::contracts::session::{
    AgentCli as ContractAgentCli, Session as ContractSession, SessionStatus as ContractSessionStatus,
};
use crate::domain::session::{
    AgentCli as DomainAgentCli, Session as DomainSession, SessionStatus as DomainSessionStatus,
};

verus! {

/// The app-facing name of a domain agent CLI.
pub open spec fn contract_agent_cli(agent_cli: DomainAgentCli) -> ContractAgentCli {
    match agent_cli {
        DomainAgentCli::OpenCode => ContractAgentCli::OpenCode,
        DomainAgentCli::Nga => ContractAgentCli::Nga,
        DomainAgentCli::CodeAgentCli => ContractAgentCli::CodeAgentCli,
    }
}

/// The app-facing name of a domain session status.
pub open spec fn contract_session_status(status: DomainSessionStatus) -> ContractSessionStatus {
    match status {
        DomainSessionStatus::Running => ContractSessionStatus::Running,
        DomainSessionStatus::Stopped => ContractSessionStatus::Stopped,
    }
}

/// Maps a domain session into the app-facing contract shape.
pub fn map_session(session: DomainSession) -> (mapped: ContractSession)
    ensures
        mapped.id@ == session.id@,
        mapped.task_id@ == session.task_id@,
        mapped.agent_cli == contract_agent_cli(session.agent_cli),
        mapped.status == contract_session_status(session.status),
{
    ContractSession {
        id: session.id.to_string(),
        task_id: session.task_id.to_string(),
        agent_cli: map_agent_cli(session.agent_cli),
        status: map_session_status(session.status),
    }
}

/// Translates the provider CLI without leaking persistence representation.
pub fn map_agent_cli(agent_cli: DomainAgentCli) -> (mapped: ContractAgentCli)
    ensures
        mapped == contract_agent_cli(agent_cli),
{
    match agent_cli {
        DomainAgentCli::OpenCode => ContractAgentCli::OpenCode,
        DomainAgentCli::Nga => ContractAgentCli::Nga,
        DomainAgentCli::CodeAgentCli => ContractAgentCli::CodeAgentCli,
    }
}

/// Translates the internal session status into the transport-facing enum.
pub fn map_session_status(status: DomainSessionStatus) -> (mapped: ContractSessionStatus)
    ensures
        mapped == contract_session_status(status),
{
    match status {
        DomainSessionStatus::Running => ContractSessionStatus::Running,
        DomainSessionStatus::Stopped => ContractSessionStatus::Stopped,
    }
}

/// The mapping to app-facing payloads loses no information: distinct agent CLIs
/// and distinct statuses stay distinct.
pub proof fn lemma_contract_mapping_injective(
    a: DomainAgentCli,
    b: DomainAgentCli,
    s: DomainSessionStatus,
    t: DomainSessionStatus,
)
    ensures
        contract_agent_cli(a) == contract_agent_cli(b) <==> a == b,
        contract_session_status(s) == contract_session_status(t) <==> s == t,
{
}

} // verus!
