use tool_registry::call_flow::{CallAction, CallEvent, CallFlow};
use tool_registry::catalog::{CatalogEntry, ToolCatalogError};
use tool_registry::discovery::{entries_for_discovered_tools, ToolDiscoveryRoutingServiceError};
use tool_registry::governance::{ToolGovernanceDecision, ToolGovernanceError};
use tool_registry::host::{McpServerHostError, ToolCallHostResult};
use tool_registry::ids::{McpServerName, TenantId};
use tool_registry::json::JsonValue;
use tool_registry::lifecycle::{apply_lifecycle_action, LifecycleHostAction};
use tool_registry::log_capture::{LogCaptureContext, LogRetentionPolicy};
use tool_registry::registry::McpServerRegistryError;
use tool_registry::routing::{ToolCallOutcome, ToolCallRequest};
use tool_registry::server::McpServerRegistration;
use tool_registry::tool::McpToolDefinition;
use tool_registry::transport::McpTransport;

fn string_schema() -> JsonValue {
    JsonValue::Object(vec![
        (
            "properties".to_owned(),
            JsonValue::Object(vec![(
                "path".to_owned(),
                JsonValue::Object(vec![("type".to_owned(), JsonValue::String("string".to_owned()))]),
            )]),
        ),
        ("required".to_owned(), JsonValue::Array(vec![JsonValue::String("path".to_owned())])),
        ("type".to_owned(), JsonValue::String("object".to_owned())),
    ])
}

fn path_params(path: &str) -> JsonValue {
    JsonValue::Object(vec![("path".to_owned(), JsonValue::String(path.to_owned()))])
}

fn running_server() -> McpServerRegistration {
    let server = McpServerRegistration::new(
        McpServerName::new("workspace_tools").expect("valid name"),
        McpTransport::stdio("mcp-server").expect("valid transport"),
        0,
    );
    apply_lifecycle_action(&server, LifecycleHostAction::Start, 1).expect("start should succeed")
}

fn entry_for(server: &McpServerRegistration) -> CatalogEntry {
    let tool = McpToolDefinition::new("read_file", "Reads a file", string_schema()).expect("valid tool");
    entries_for_discovered_tools(server, vec![tool], 10).remove(0)
}

fn step(flow: CallFlow, request: &ToolCallRequest, event: CallEvent, now: i64) -> (CallFlow, CallAction) {
    assert!(flow.expects(&event), "the flow should expect this event");
    let retention = LogRetentionPolicy::default();
    let ctx = LogCaptureContext { now, retention: &retention, tenant_id: TenantId::from_uuid(9) };
    flow.step(request, event, &ctx)
}

#[test]
fn call_flow_runs_a_successful_call_with_stderr() {
    let server = running_server();
    let entry = entry_for(&server);
    let request = ToolCallRequest::new("read_file", path_params("/tmp/a.txt"), 100);
    let (flow, action) = CallFlow::start();
    assert!(matches!(action, CallAction::FindEntries));
    let (flow, action) = step(flow, &request, CallEvent::EntriesFound(Ok(vec![entry])), 110);
    assert!(matches!(action, CallAction::EnforceBeforeCall(_)));
    let (flow, action) = step(flow, &request, CallEvent::GovernanceAnswered(Ok(ToolGovernanceDecision::Allow)), 120);
    match action {
        CallAction::FindServer(id) => assert_eq!(id, server.id()),
        other => panic!("expected a server lookup, got {other:?}"),
    }
    let (flow, action) = step(flow, &request, CallEvent::ServerFound(Ok(Some(server.cloned()))), 130);
    assert!(matches!(action, CallAction::CallHost(_)));
    let host = ToolCallHostResult {
        content: JsonValue::String("hello".to_owned()),
        stderr_output: Some(b"warn".to_vec()),
    };
    let (flow, action) = step(flow, &request, CallEvent::HostAnswered(Ok(host)), 350);
    let path = match action {
        CallAction::StoreStderr(meta, content) => {
            assert_eq!(content, b"warn".to_vec());
            assert_eq!(meta.byte_count(), 4);
            assert_eq!(meta.captured_at(), 350);
            meta.object_path().to_owned()
        }
        other => panic!("expected stderr capture, got {other:?}"),
    };
    let (flow, action) = step(flow, &request, CallEvent::StderrStored(true), 360);
    match action {
        CallAction::RecordAudit(audit) => {
            assert_eq!(audit.stderr_log_path(), Some(path.as_str()));
            assert_eq!(audit.duration_micros(), 250);
            assert!(audit.outcome().is_success());
        }
        other => panic!("expected an audit, got {other:?}"),
    }
    let (flow, action) = step(flow, &request, CallEvent::AuditRecorded, 370);
    assert!(matches!(action, CallAction::ObserveAfterCall(_, _)));
    let (flow, action) = step(flow, &request, CallEvent::Observed, 380);
    assert!(matches!(flow, CallFlow::Done));
    match action {
        CallAction::Finish(Ok(result)) => {
            assert_eq!(result.server_id(), server.id());
            assert_eq!(*result.outcome(), ToolCallOutcome::Success { content: JsonValue::String("hello".to_owned()) });
        }
        other => panic!("expected a finished call, got {other:?}"),
    }
}

#[test]
fn call_flow_unstored_stderr_leaves_no_path() {
    let server = running_server();
    let entry = entry_for(&server);
    let request = ToolCallRequest::new("read_file", path_params("/tmp/a.txt"), 100);
    let (flow, _) = CallFlow::start();
    let (flow, _) = step(flow, &request, CallEvent::EntriesFound(Ok(vec![entry])), 110);
    let (flow, _) = step(flow, &request, CallEvent::GovernanceAnswered(Ok(ToolGovernanceDecision::Allow)), 120);
    let (flow, _) = step(flow, &request, CallEvent::ServerFound(Ok(Some(server.cloned()))), 130);
    let host = ToolCallHostResult { content: JsonValue::Null, stderr_output: Some(b"x".to_vec()) };
    let (flow, _) = step(flow, &request, CallEvent::HostAnswered(Ok(host)), 140);
    let (_, action) = step(flow, &request, CallEvent::StderrStored(false), 150);
    match action {
        CallAction::RecordAudit(audit) => assert!(audit.stderr_log_path().is_none()),
        other => panic!("expected an audit, got {other:?}"),
    }
}

#[test]
fn call_flow_host_error_ends_with_the_host_error() {
    let server = running_server();
    let entry = entry_for(&server);
    let request = ToolCallRequest::new("read_file", path_params("/tmp/a.txt"), 100);
    let (flow, _) = CallFlow::start();
    let (flow, _) = step(flow, &request, CallEvent::EntriesFound(Ok(vec![entry])), 110);
    let (flow, _) = step(flow, &request, CallEvent::GovernanceAnswered(Ok(ToolGovernanceDecision::Allow)), 120);
    let (flow, _) = step(flow, &request, CallEvent::ServerFound(Ok(Some(server.cloned()))), 130);
    let error = McpServerHostError::NotRunning(server.id());
    let (flow, action) = step(flow, &request, CallEvent::HostAnswered(Err(error.clone())), 140);
    match action {
        CallAction::RecordAudit(audit) => assert!(audit.outcome().is_failure()),
        other => panic!("expected an audit, got {other:?}"),
    }
    let (flow, _) = step(flow, &request, CallEvent::AuditRecorded, 150);
    let (_, action) = step(flow, &request, CallEvent::Observed, 160);
    match action {
        CallAction::Finish(Err(err)) => assert_eq!(err, ToolDiscoveryRoutingServiceError::Host(error)),
        other => panic!("expected the host error, got {other:?}"),
    }
}

#[test]
fn call_flow_unknown_tool_ends_without_audit() {
    let request = ToolCallRequest::new("missing", path_params("/tmp/a.txt"), 100);
    let (flow, _) = CallFlow::start();
    let (flow, action) = step(flow, &request, CallEvent::EntriesFound(Ok(Vec::new())), 110);
    assert!(matches!(flow, CallFlow::Done));
    match action {
        CallAction::Finish(Err(err)) => assert_eq!(err.message(), "tool not found: missing"),
        other => panic!("expected not-found, got {other:?}"),
    }
}

#[test]
fn call_flow_catalog_failure_ends_the_call() {
    let request = ToolCallRequest::new("read_file", path_params("/tmp/a.txt"), 100);
    let (flow, _) = CallFlow::start();
    let failure = ToolCatalogError::NotFound("read_file".to_owned());
    let (_, action) = step(flow, &request, CallEvent::EntriesFound(Err(failure.clone())), 110);
    match action {
        CallAction::Finish(Err(err)) => assert_eq!(err, ToolDiscoveryRoutingServiceError::Catalog(failure)),
        other => panic!("expected a catalog error, got {other:?}"),
    }
}

#[test]
fn call_flow_invalid_parameters_are_audited_as_rejection() {
    let server = running_server();
    let entry = entry_for(&server);
    let request = ToolCallRequest::new("read_file", JsonValue::Object(Vec::new()), 100);
    let (flow, _) = CallFlow::start();
    let (flow, action) = step(flow, &request, CallEvent::EntriesFound(Ok(vec![entry])), 110);
    match action {
        CallAction::RecordAudit(audit) => {
            assert_eq!(audit.server_id(), server.id());
            assert!(audit.outcome().is_failure());
        }
        other => panic!("expected a rejection audit, got {other:?}"),
    }
    let (flow, action) = step(flow, &request, CallEvent::AuditRecorded, 120);
    assert!(matches!(flow, CallFlow::Done));
    assert!(matches!(action, CallAction::Finish(Err(_))));
}

#[test]
fn call_flow_governance_denial_and_failure_are_rejections() {
    let server = running_server();
    let request = ToolCallRequest::new("read_file", path_params("/tmp/a.txt"), 100);
    let (flow, _) = CallFlow::start();
    let (flow, _) = step(flow, &request, CallEvent::EntriesFound(Ok(vec![entry_for(&server)])), 110);
    let denied = ToolGovernanceDecision::Deny { reason: "no".to_owned() };
    let (flow, action) = step(flow, &request, CallEvent::GovernanceAnswered(Ok(denied)), 120);
    assert!(matches!(action, CallAction::RecordAudit(_)));
    let (_, action) = step(flow, &request, CallEvent::AuditRecorded, 130);
    match action {
        CallAction::Finish(Err(err)) => assert_eq!(err.message(), "policy denied tool call to 'read_file': no"),
        other => panic!("expected a denial, got {other:?}"),
    }

    let (flow, _) = CallFlow::start();
    let (flow, _) = step(flow, &request, CallEvent::EntriesFound(Ok(vec![entry_for(&server)])), 110);
    let failed = ToolGovernanceError::EvaluationFailed { message: "engine down".to_owned() };
    let (flow, action) = step(flow, &request, CallEvent::GovernanceAnswered(Err(failed)), 120);
    assert!(matches!(action, CallAction::RecordAudit(_)));
    let (_, action) = step(flow, &request, CallEvent::AuditRecorded, 130);
    match action {
        CallAction::Finish(Err(err)) => {
            assert!(matches!(err, ToolDiscoveryRoutingServiceError::Policy(_)));
            assert_eq!(err.message(), "policy evaluation failed: engine down");
        }
        other => panic!("expected a policy failure, got {other:?}"),
    }
}

#[test]
fn call_flow_missing_or_stopped_server_is_rejected() {
    let server = running_server();
    let request = ToolCallRequest::new("read_file", path_params("/tmp/a.txt"), 100);
    for found in [Ok(None), Err(McpServerRegistryError::persistence("down"))] {
        let (flow, _) = CallFlow::start();
        let (flow, _) = step(flow, &request, CallEvent::EntriesFound(Ok(vec![entry_for(&server)])), 110);
        let (flow, _) = step(flow, &request, CallEvent::GovernanceAnswered(Ok(ToolGovernanceDecision::Allow)), 120);
        let (flow, action) = step(flow, &request, CallEvent::ServerFound(found), 130);
        assert!(matches!(action, CallAction::RecordAudit(_)));
        let (flow, action) = step(flow, &request, CallEvent::AuditRecorded, 140);
        assert!(matches!(flow, CallFlow::Done));
        assert!(matches!(action, CallAction::Finish(Err(_))));
    }
}

#[test]
fn call_flow_rejects_unexpected_events() {
    let (flow, _) = CallFlow::start();
    assert!(!flow.expects(&CallEvent::Observed));
    assert!(flow.expects(&CallEvent::EntriesFound(Ok(Vec::new()))));
    assert!(!CallFlow::Done.expects(&CallEvent::AuditRecorded));
}
