use tool_registry::error::ToolRegistryDomainError;
use tool_registry::health::{McpServerHealthSnapshot, McpServerHealthStatus};
use tool_registry::host::McpServerHostError;
use tool_registry::ids::{McpServerId, McpServerName};
use tool_registry::lifecycle::{
    apply_lifecycle_action, LifecycleCompensationAction, LifecycleHostAction, McpServerLifecycleServiceError,
};
use tool_registry::lifecycle_flow::{compensation_failure_error, LifecycleEvent, LifecycleFlow, LifecycleStep};
use tool_registry::registry::McpServerRegistryError;
use tool_registry::server::{McpServerLifecycleState, McpServerRegistration};
use tool_registry::transport::McpTransport;

fn registered() -> McpServerRegistration {
    McpServerRegistration::new(
        McpServerName::new("workspace_tools").expect("valid name"),
        McpTransport::stdio("mcp-server").expect("valid transport"),
        0,
    )
}

fn step(flow: LifecycleFlow, event: LifecycleEvent, now: i64) -> (LifecycleFlow, LifecycleStep) {
    assert!(flow.expects(&event), "the flow should expect this event");
    flow.step(event, now)
}

#[test]
fn lifecycle_flow_starts_and_persists() {
    let server = registered();
    let (flow, first) = LifecycleFlow::begin(server.id(), Some(LifecycleHostAction::Start));
    assert!(matches!(first, LifecycleStep::FindServer(id) if id == server.id()));
    let (flow, next) = step(flow, LifecycleEvent::ServerFound(Ok(Some(server.cloned()))), 10);
    match next {
        LifecycleStep::RunHost(LifecycleHostAction::Start, s) => {
            assert_eq!(s.lifecycle_state(), McpServerLifecycleState::Registered)
        }
        other => panic!("expected the host start, got {other:?}"),
    }
    let (flow, next) = step(flow, LifecycleEvent::HostActed(Ok(Some(b"booting".to_vec()))), 20);
    match &next {
        LifecycleStep::UpdateServer(s) => {
            assert_eq!(s.lifecycle_state(), McpServerLifecycleState::Running);
            assert_eq!(s.updated_at(), 10);
        }
        other => panic!("expected an update, got {other:?}"),
    }
    let (flow, next) = step(flow, LifecycleEvent::Persisted(Ok(())), 30);
    assert!(matches!(flow, LifecycleFlow::Done));
    match next {
        LifecycleStep::Finish(Ok(change)) => {
            assert_eq!(change.updated_server.lifecycle_state(), McpServerLifecycleState::Running);
            assert_eq!(change.compensation, Some(LifecycleCompensationAction::Stop));
            assert_eq!(change.startup_stderr, Some(b"booting".to_vec()));
        }
        other => panic!("expected success, got {other:?}"),
    }
}

#[test]
fn lifecycle_flow_missing_server_is_not_found() {
    let id = McpServerId::from_uuid(3);
    let (flow, _) = LifecycleFlow::begin(id, Some(LifecycleHostAction::Stop));
    let (_, next) = step(flow, LifecycleEvent::ServerFound(Ok(None)), 1);
    assert!(matches!(next, LifecycleStep::Finish(Err(McpServerLifecycleServiceError::NotFound(x))) if x == id));
}

#[test]
fn lifecycle_flow_refuses_stop_of_a_registered_server() {
    let server = registered();
    let (flow, _) = LifecycleFlow::begin(server.id(), Some(LifecycleHostAction::Stop));
    let (flow, next) = step(flow, LifecycleEvent::ServerFound(Ok(Some(server))), 1);
    assert!(matches!(flow, LifecycleFlow::Done));
    match next {
        LifecycleStep::Finish(Err(McpServerLifecycleServiceError::Domain(e))) => assert_eq!(
            e,
            ToolRegistryDomainError::InvalidLifecycleTransition { from: "registered".to_owned(), to: "stopped".to_owned() }
        ),
        other => panic!("expected an invalid transition, got {other:?}"),
    }
}

#[test]
fn lifecycle_flow_compensates_a_refused_start() {
    let server = registered();
    let (flow, _) = LifecycleFlow::begin(server.id(), Some(LifecycleHostAction::Start));
    let (flow, _) = step(flow, LifecycleEvent::ServerFound(Ok(Some(server.cloned()))), 10);
    let (flow, _) = step(flow, LifecycleEvent::HostActed(Ok(None)), 20);
    let refusal = McpServerRegistryError::persistence("disk full");
    let (flow, next) = step(flow, LifecycleEvent::Persisted(Err(refusal)), 30);
    assert!(matches!(next, LifecycleStep::Compensate(LifecycleHostAction::Stop, _)));
    let (_, next) = step(flow, LifecycleEvent::Compensated(Ok(())), 40);
    match next {
        LifecycleStep::Finish(Err(e)) => assert_eq!(
            e,
            McpServerLifecycleServiceError::Repository(McpServerRegistryError::persistence("disk full"))
        ),
        other => panic!("expected the registry error, got {other:?}"),
    }
}

#[test]
fn lifecycle_flow_reports_a_failed_compensation() {
    let running = apply_lifecycle_action(&registered(), LifecycleHostAction::Start, 5).expect("start");
    let (flow, _) = LifecycleFlow::begin(running.id(), Some(LifecycleHostAction::Stop));
    let (flow, next) = step(flow, LifecycleEvent::ServerFound(Ok(Some(running.cloned()))), 10);
    assert!(matches!(next, LifecycleStep::RunHost(LifecycleHostAction::Stop, _)));
    let (flow, _) = step(flow, LifecycleEvent::HostActed(Ok(None)), 20);
    let refusal = McpServerRegistryError::persistence("disk full");
    let (flow, next) = step(flow, LifecycleEvent::Persisted(Err(refusal)), 30);
    assert!(matches!(next, LifecycleStep::Compensate(LifecycleHostAction::Start, _)));
    let host_error = McpServerHostError::NotRunning(running.id());
    let (_, next) = step(flow, LifecycleEvent::Compensated(Err(host_error)), 40);
    match next {
        LifecycleStep::Finish(Err(McpServerLifecycleServiceError::Host(McpServerHostError::CommunicationError {
            server_id,
            reason,
        }))) => {
            assert_eq!(server_id, running.id());
            assert!(reason.starts_with("lifecycle persistence failed: "));
            assert!(reason.contains("; compensation failed: MCP server "));
        }
        other => panic!("expected a communication error, got {other:?}"),
    }
}

#[test]
fn lifecycle_flow_refreshes_health_without_compensation() {
    let server = registered();
    let (flow, _) = LifecycleFlow::begin(server.id(), None);
    let (flow, next) = step(flow, LifecycleEvent::ServerFound(Ok(Some(server.cloned()))), 1);
    assert!(matches!(next, LifecycleStep::CheckHealth(_)));
    let (flow, next) = step(flow, LifecycleEvent::HealthChecked(Ok(McpServerHealthSnapshot::healthy(7))), 8);
    match &next {
        LifecycleStep::UpdateServer(s) => {
            assert_eq!(s.last_health().map(|h| h.status()), Some(McpServerHealthStatus::Healthy));
            assert_eq!(s.updated_at(), 8);
            assert_eq!(s.lifecycle_state(), McpServerLifecycleState::Registered);
        }
        other => panic!("expected an update, got {other:?}"),
    }
    let refusal = McpServerRegistryError::persistence("gone");
    let (_, next) = step(flow, LifecycleEvent::Persisted(Err(refusal)), 9);
    match next {
        LifecycleStep::Finish(Err(e)) => assert_eq!(
            e,
            McpServerLifecycleServiceError::Repository(McpServerRegistryError::persistence("gone"))
        ),
        other => panic!("expected the registry error, got {other:?}"),
    }
}

#[test]
fn lifecycle_flow_host_failure_ends_the_operation() {
    let server = registered();
    let (flow, _) = LifecycleFlow::begin(server.id(), Some(LifecycleHostAction::Start));
    let (flow, _) = step(flow, LifecycleEvent::ServerFound(Ok(Some(server.cloned()))), 1);
    let failure = McpServerHostError::NotRunning(server.id());
    let (_, next) = step(flow, LifecycleEvent::HostActed(Err(failure.clone())), 2);
    match next {
        LifecycleStep::Finish(Err(e)) => assert_eq!(e, McpServerLifecycleServiceError::Host(failure)),
        other => panic!("expected the host error, got {other:?}"),
    }
}

#[test]
fn compensation_failure_names_both_causes() {
    let id = McpServerId::from_uuid(1);
    let e = compensation_failure_error(
        id,
        &McpServerRegistryError::persistence("disk full"),
        &McpServerHostError::NotRunning(id),
    );
    match e {
        McpServerLifecycleServiceError::Host(McpServerHostError::CommunicationError { server_id, reason }) => {
            assert_eq!(server_id, id);
            assert_eq!(
                reason,
                format!(
                    "lifecycle persistence failed: {}; compensation failed: MCP server 00000000-0000-0000-0000-000000000001 is not running",
                    McpServerRegistryError::persistence("disk full").message()
                )
            );
        }
        other => panic!("expected a communication error, got {other:?}"),
    }
}
