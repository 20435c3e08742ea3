use ora::application::session_mapper::{map_agent_cli, map_session, map_session_status};
use ora::contracts::session::{
    AgentCli as ContractAgentCli, SessionStatus as ContractSessionStatus,
};
use ora::domain::ids::{SessionId, TaskId};
use ora::domain::session::{AgentCli, AuditFields, DomainModelError, Session, SessionStatus};

#[test]
fn agent_cli_database_values_round_trip() {
    for cli in [AgentCli::OpenCode, AgentCli::Nga, AgentCli::CodeAgentCli] {
        assert_eq!(AgentCli::from_database_value(cli.database_value()), Ok(cli));
    }
    assert_eq!(AgentCli::OpenCode.database_value(), 0);
    assert_eq!(AgentCli::Nga.database_value(), 1);
    assert_eq!(AgentCli::CodeAgentCli.database_value(), 2);
}

#[test]
fn agent_cli_rejects_unknown_values() {
    assert_eq!(
        AgentCli::from_database_value(3),
        Err(DomainModelError::InvalidAgentCli(3))
    );
    assert_eq!(
        AgentCli::from_database_value(-1),
        Err(DomainModelError::InvalidAgentCli(-1))
    );
    assert_eq!(
        AgentCli::from_database_value(i64::MAX),
        Err(DomainModelError::InvalidAgentCli(i64::MAX))
    );
}

#[test]
fn session_status_database_values_round_trip() {
    for status in [SessionStatus::Running, SessionStatus::Stopped] {
        assert_eq!(
            SessionStatus::from_database_value(status.database_value()),
            Ok(status)
        );
    }
    assert_eq!(SessionStatus::Running.database_value(), 0);
    assert_eq!(SessionStatus::Stopped.database_value(), 1);
}

#[test]
fn session_status_rejects_unknown_values() {
    assert_eq!(
        SessionStatus::from_database_value(2),
        Err(DomainModelError::InvalidSessionStatus(2))
    );
    assert_eq!(
        SessionStatus::from_database_value(i64::MIN),
        Err(DomainModelError::InvalidSessionStatus(i64::MIN))
    );
}

fn sample_session() -> Session {
    Session::new(
        SessionId::new("session-1".to_string()),
        TaskId::new("task-1".to_string()),
        AgentCli::Nga,
        "provider-1".to_string(),
        SessionStatus::Running,
        AuditFields {
            created_at: 100,
            updated_at: 100,
        },
    )
}

#[test]
fn new_session_keeps_every_field() {
    let session = sample_session();
    assert_eq!(session.id.to_string(), "session-1");
    assert_eq!(session.task_id.to_string(), "task-1");
    assert_eq!(session.agent_cli, AgentCli::Nga);
    assert_eq!(session.agent_session_id, "provider-1");
    assert_eq!(session.status, SessionStatus::Running);
    assert_eq!(session.audit_fields.created_at, 100);
}

#[test]
fn with_status_changes_only_lifecycle_state() {
    let before = sample_session();
    let after = before.clone().with_status(SessionStatus::Stopped, 250);
    assert_eq!(after.status, SessionStatus::Stopped);
    assert_eq!(after.audit_fields.updated_at, 250);
    assert_eq!(after.audit_fields.created_at, before.audit_fields.created_at);
    assert_eq!(after.id, before.id);
    assert_eq!(after.task_id, before.task_id);
    assert_eq!(after.agent_cli, before.agent_cli);
    assert_eq!(after.agent_session_id, before.agent_session_id);
}

#[test]
fn maps_domain_session_into_contract() {
    let mapped = map_session(sample_session().with_status(SessionStatus::Stopped, 1));
    assert_eq!(mapped.id, "session-1");
    assert_eq!(mapped.task_id, "task-1");
    assert_eq!(mapped.agent_cli, ContractAgentCli::Nga);
    assert_eq!(mapped.status, ContractSessionStatus::Stopped);
}

#[test]
fn maps_every_enum_variant() {
    assert_eq!(map_agent_cli(AgentCli::OpenCode), ContractAgentCli::OpenCode);
    assert_eq!(map_agent_cli(AgentCli::Nga), ContractAgentCli::Nga);
    assert_eq!(
        map_agent_cli(AgentCli::CodeAgentCli),
        ContractAgentCli::CodeAgentCli
    );
    assert_eq!(
        map_session_status(SessionStatus::Running),
        ContractSessionStatus::Running
    );
    assert_eq!(
        map_session_status(SessionStatus::Stopped),
        ContractSessionStatus::Stopped
    );
}
