use tool_registry::call_flow::{CallAction, CallEvent, CallFlow};
use tool_registry::catalog::{CatalogEntry, ToolCatalogError, ToolCatalogState};
use tool_registry::discovery::{
    apply_governance_decision, build_tool_call_result, completed_call_audit, entries_for_discovered_tools,
    map_sync_error, precheck_entry, rejection_audit, require_running_server, resolve_entry,
    return_result_or_host_error, tool_call_stderr_capture, ToolDiscoveryRoutingServiceError,
};
use tool_registry::error::ToolRegistryDomainError;
use tool_registry::governance::{StubGovernance, ToolGovernanceDecision, ToolGovernanceError, ToolPolicyError};
use tool_registry::host::{McpServerHostError, ToolCallHostResult};
use tool_registry::ids::{McpServerId, McpServerName, TenantId};
use tool_registry::json::JsonValue;
use tool_registry::lifecycle::{apply_lifecycle_action, LifecycleHostAction};
use tool_registry::log_capture::{LogCaptureContext, LogRetentionPolicy};
use tool_registry::routing::{ToolCallOutcome, ToolCallRequest};
use tool_registry::server::McpServerRegistration;
use tool_registry::tool::McpToolDefinition;
use tool_registry::transport::McpTransport;

fn convert(v: serde_json::Value) -> JsonValue {
    match v {
        serde_json::Value::Null => JsonValue::Null,
        serde_json::Value::Bool(b) => JsonValue::Bool(b),
        serde_json::Value::Number(n) => JsonValue::Number(n.to_string()),
        serde_json::Value::String(s) => JsonValue::String(s),
        serde_json::Value::Array(a) => JsonValue::Array(a.into_iter().map(convert).collect()),
        serde_json::Value::Object(m) => {
            JsonValue::Object(m.into_iter().map(|(k, v)| (k, convert(v))).collect())
        }
    }
}

fn json(text: &str) -> JsonValue {
    convert(serde_json::from_str(text).expect("test JSON should parse"))
}

fn read_file_tool() -> McpToolDefinition {
    McpToolDefinition::new(
        "read_file",
        "Reads a file from the workspace",
        json(r#"{"type": "object", "properties": {"path": {"type": "string"}}, "required": ["path"]}"#),
    )
    .expect("tool definition should be valid")
}

fn running_server() -> McpServerRegistration {
    let server = McpServerRegistration::new(
        McpServerName::new("workspace_tools").expect("valid name"),
        McpTransport::stdio("mcp-server").expect("valid transport"),
        0,
    );
    apply_lifecycle_action(&server, LifecycleHostAction::Start, 1).expect("start should succeed")
}

fn entry_for(server: &McpServerRegistration) -> CatalogEntry {
    entries_for_discovered_tools(server, vec![read_file_tool()], 10).remove(0)
}

#[test]
fn discover_tools_persists_catalog() {
    let server = running_server();
    let entries = entries_for_discovered_tools(&server, vec![read_file_tool()], 10);
    let mut catalog = ToolCatalogState::new();
    catalog.sync_server_tools(server.id(), &entries).expect("sync");
    let listed = catalog.list_all();
    assert_eq!(listed.len(), 1, "expected single catalog entry");
    assert_eq!(listed[0].tool().name(), "read_file");
    assert_eq!(listed[0].server_id(), server.id());
    assert!(listed[0].available());
}

#[test]
fn discover_tools_requires_running_server() {
    let server = McpServerRegistration::new(
        McpServerName::new("workspace_tools").unwrap(),
        McpTransport::stdio("mcp-server").unwrap(),
        0,
    );
    let result = require_running_server(server.id(), Some(server));
    assert!(matches!(
        result,
        Err(ToolDiscoveryRoutingServiceError::Domain(ToolRegistryDomainError::ToolQueryRequiresRunning { .. }))
    ));
    let id = McpServerId::new();
    assert_eq!(require_running_server(id, None).unwrap_err(), ToolDiscoveryRoutingServiceError::NotFound(id));
}

#[test]
fn call_tool_unknown_tool_returns_not_found() {
    let result = resolve_entry("nonexistent", Vec::new());
    assert_eq!(
        result.unwrap_err(),
        ToolDiscoveryRoutingServiceError::Domain(ToolRegistryDomainError::ToolNotFound("nonexistent".to_owned()))
    );
}

#[test]
fn ambiguous_tool_names_are_refused() {
    let server = running_server();
    let result = resolve_entry("read_file", vec![entry_for(&server), entry_for(&server)]);
    assert_eq!(
        result.unwrap_err(),
        ToolDiscoveryRoutingServiceError::Domain(ToolRegistryDomainError::AmbiguousToolName {
            tool_name: "read_file".to_owned(),
            server_count: 2
        })
    );
}

#[test]
fn call_tool_unavailable_tool_returns_error() {
    let server = running_server();
    let mut entry = entry_for(&server);
    entry.mark_unavailable(20);
    let request = ToolCallRequest::new("read_file", json(r#"{"path": "/tmp/test.txt"}"#), 30);
    assert!(matches!(
        precheck_entry(&entry, &request),
        Err(ToolDiscoveryRoutingServiceError::Domain(ToolRegistryDomainError::ToolUnavailable { .. }))
    ));
}

#[test]
fn call_tool_schema_validation_failure() {
    let server = running_server();
    let entry = entry_for(&server);
    let request = ToolCallRequest::new("read_file", json("{}"), 30);
    assert_eq!(
        precheck_entry(&entry, &request),
        Err(ToolDiscoveryRoutingServiceError::Domain(ToolRegistryDomainError::SchemaValidationFailed {
            tool_name: "read_file".to_owned(),
            reason: "missing required parameter: path".to_owned(),
        }))
    );
    let request = ToolCallRequest::new("read_file", json("[1]"), 30);
    assert!(precheck_entry(&entry, &request).is_err());
    let request = ToolCallRequest::new("read_file", json(r#"{"path": "/tmp/test.txt"}"#), 30);
    assert_eq!(precheck_entry(&entry, &request), Ok(()));
}

#[test]
fn call_tool_policy_denied() {
    let server = running_server();
    let entry = entry_for(&server);
    let request = ToolCallRequest::new("read_file", json(r#"{"path": "/tmp/test.txt"}"#), 30);
    let decision = StubGovernance::denying("forbidden").enforce_before_call(&request, &entry);
    assert_eq!(
        apply_governance_decision(&request, decision),
        Err(ToolDiscoveryRoutingServiceError::Domain(ToolRegistryDomainError::PolicyDenied {
            tool_name: "read_file".to_owned(),
            reason: "forbidden".to_owned()
        }))
    );
}

#[test]
fn call_tool_policy_evaluation_failed() {
    let server = running_server();
    let entry = entry_for(&server);
    let request = ToolCallRequest::new("read_file", json(r#"{"path": "/tmp/test.txt"}"#), 30);
    let retention = LogRetentionPolicy::default();
    let ctx = LogCaptureContext { now: 40, retention: &retention, tenant_id: TenantId::from_uuid(9) };
    let governance = StubGovernance::failing("engine down");
    let mut host_called = false;
    let (mut flow, mut action) = CallFlow::start();
    let outcome = loop {
        let event = match action {
            CallAction::FindEntries => CallEvent::EntriesFound(Ok(vec![entry.cloned()])),
            CallAction::EnforceBeforeCall(e) => {
                CallEvent::GovernanceAnswered(governance.enforce_before_call(&request, &e))
            }
            CallAction::FindServer(_) => CallEvent::ServerFound(Ok(Some(server.cloned()))),
            CallAction::CallHost(target) => {
                host_called = true;
                CallEvent::HostAnswered(Err(McpServerHostError::CommunicationError { server_id: target.id(), reason: "unexpected".to_owned() }))
            }
            CallAction::StoreStderr(_, _) => CallEvent::StderrStored(true),
            CallAction::RecordAudit(_) => CallEvent::AuditRecorded,
            CallAction::ObserveAfterCall(_, _) => CallEvent::Observed,
            CallAction::Finish(r) => break r,
        };
        assert!(flow.expects(&event));
        let (next, next_action) = flow.step(&request, event, &ctx);
        flow = next;
        action = next_action;
    };
    assert!(!host_called, "a failed policy evaluation must not reach the host");
    assert!(matches!(outcome, Err(ToolDiscoveryRoutingServiceError::Policy(_))));
    assert_eq!(
        outcome,
        Err(ToolDiscoveryRoutingServiceError::Policy(ToolPolicyError::EvaluationFailed("engine down".to_owned())))
    );
    assert_eq!(
        apply_governance_decision(
            &request,
            Err(ToolGovernanceError::EvaluationFailed { message: "engine down".to_owned() })
        ),
        Err(ToolDiscoveryRoutingServiceError::Policy(ToolPolicyError::EvaluationFailed("engine down".to_owned())))
    );
    assert_eq!(apply_governance_decision(&request, Ok(ToolGovernanceDecision::Allow)), Ok(()));
}

#[test]
fn call_tool_routes_to_correct_server() {
    let server = running_server();
    let request = ToolCallRequest::new("read_file", json(r#"{"path": "/tmp/test.txt"}"#), 100);
    let host = Ok(ToolCallHostResult { content: json(r#"{"text": "hello"}"#), stderr_output: None });
    let (result, stderr, host_error) = build_tool_call_result(&request, host, server.id(), 350);
    assert_eq!(result.server_id(), server.id());
    assert_eq!(result.duration_micros(), 250);
    assert_eq!(result.completed_at(), 350);
    assert!(result.outcome().is_success());
    assert!(stderr.is_none());
    assert!(host_error.is_none());
    let audit = completed_call_audit(&request, &result, None);
    assert_eq!(audit.tool_name(), "read_file");
    assert_eq!(audit.initiated_at(), 100);
    assert!(audit.stderr_log_path().is_none());
    let mut catalog = ToolCatalogState::new();
    catalog.record_audit(&audit);
    assert_eq!(catalog.audit_records().len(), 1, "audit record");
    assert!(return_result_or_host_error(result, None).is_ok());
}

#[test]
fn call_tool_host_failure_still_records_audit() {
    let server = running_server();
    let request = ToolCallRequest::new("read_file", json(r#"{"path": "/tmp/test.txt"}"#), 100);
    let error = McpServerHostError::NotRunning(McpServerId::from_uuid(7));
    let (result, stderr, host_error) = build_tool_call_result(&request, Err(error.clone()), server.id(), 50);
    assert_eq!(result.duration_micros(), 0);
    assert_eq!(
        *result.outcome(),
        ToolCallOutcome::Failure { error: "MCP server 00000000-0000-0000-0000-000000000007 is not running".to_owned() }
    );
    assert!(stderr.is_none());
    assert_eq!(host_error, Some(error.clone()));
    let audit = completed_call_audit(&request, &result, None);
    assert!(audit.outcome().is_failure());
    assert_eq!(
        return_result_or_host_error(result, host_error).unwrap_err(),
        ToolDiscoveryRoutingServiceError::Host(error)
    );
}

#[test]
fn call_tool_captures_stderr_in_log_store() {
    let server = running_server();
    let request = ToolCallRequest::new("read_file", json(r#"{"path": "/tmp/test.txt"}"#), 100);
    let host = Ok(ToolCallHostResult {
        content: json("null"),
        stderr_output: Some(b"debug: opening file".to_vec()),
    });
    let (result, stderr, _) = build_tool_call_result(&request, host, server.id(), 200);
    let retention = LogRetentionPolicy::default();
    let ctx = LogCaptureContext { now: 200, retention: &retention, tenant_id: TenantId::from_uuid(1) };
    let (meta, content) = tool_call_stderr_capture(&result, stderr, &ctx).expect("stderr captured");
    assert_eq!(content, b"debug: opening file".to_vec());
    assert_eq!(meta.byte_count(), 19);
    assert!(meta.object_path().contains(&format!("/call/{}/", request.call_id().to_text())));
    let audit = completed_call_audit(&request, &result, Some(meta.object_path()));
    assert_eq!(audit.stderr_log_path(), Some(meta.object_path()));
}

#[test]
fn call_tool_without_stderr_has_no_log_path() {
    let server = running_server();
    let request = ToolCallRequest::new("read_file", json(r#"{"path": "/tmp/test.txt"}"#), 100);
    let host = Ok(ToolCallHostResult { content: json("null"), stderr_output: Some(Vec::new()) });
    let (result, stderr, _) = build_tool_call_result(&request, host, server.id(), 200);
    let retention = LogRetentionPolicy::default();
    let ctx = LogCaptureContext { now: 200, retention: &retention, tenant_id: TenantId::from_uuid(1) };
    assert!(tool_call_stderr_capture(&result, stderr, &ctx).is_none());
}

#[test]
fn rejections_are_audited_with_the_error_text() {
    let server = running_server();
    let request = ToolCallRequest::new("read_file", json(r#"{"path": "/tmp/test.txt"}"#), 100);
    let error = ToolDiscoveryRoutingServiceError::Domain(ToolRegistryDomainError::PolicyDenied {
        tool_name: "read_file".to_owned(),
        reason: "forbidden".to_owned(),
    });
    let audit = rejection_audit(&request, server.id(), &error, 130);
    assert_eq!(
        *audit.outcome(),
        ToolCallOutcome::Failure { error: "policy denied tool call to 'read_file': forbidden".to_owned() }
    );
    assert_eq!(audit.duration_micros(), 30);
    assert_eq!(*audit.parameters(), json(r#"{"path": "/tmp/test.txt"}"#));
}

#[test]
fn duplicate_sync_surfaces_as_ambiguous_name() {
    let err = ToolCatalogError::DuplicateEntry {
        id: tool_registry::ids::CatalogEntryId::from_uuid(1),
        tool_name: "read_file".to_owned(),
        server_count: 2,
    };
    assert_eq!(
        map_sync_error(err),
        ToolDiscoveryRoutingServiceError::Domain(ToolRegistryDomainError::AmbiguousToolName {
            tool_name: "read_file".to_owned(),
            server_count: 2
        })
    );
    let other = ToolCatalogError::NotFound("x".to_owned());
    assert_eq!(map_sync_error(other.clone()), ToolDiscoveryRoutingServiceError::Catalog(other));
}
