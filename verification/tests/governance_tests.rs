use std::sync::Arc;
use tool_registry::catalog::CatalogEntry;
use tool_registry::governance::{
    build_scope_metadata, build_trigger_context, decision_from_events, project_execution_scope, HookTriggerType, denial_reason, AllowAllPolicy, DenyAllPolicy, FailingPolicy,
    HookBackedToolExecutionGovernance, PolicyAuditDecision, PolicyAuditEvent, StubGovernance, StubOutcome,
    ToolGovernanceDecision, ToolGovernanceError,
};
use tool_registry::ids::{McpServerId, McpServerName};
use tool_registry::json::JsonValue;
use tool_registry::routing::{ToolCallOutcome, ToolCallRequest, ToolCallResult, ToolCallTiming};
use tool_registry::tool::McpToolDefinition;

fn text(s: &str) -> JsonValue {
    JsonValue::String(s.to_owned())
}

fn num(n: u64) -> JsonValue {
    JsonValue::Number(n.to_string())
}

fn obj(members: Vec<(&str, JsonValue)>) -> JsonValue {
    JsonValue::Object(members.into_iter().map(|(k, v)| (k.to_owned(), v)).collect())
}

fn entry(server: McpServerId) -> CatalogEntry {
    CatalogEntry::new(
        server,
        McpServerName::new("workspace_tools").unwrap(),
        McpToolDefinition::new("read_file", "Reads a file", obj(vec![("type", text("object"))])).unwrap(),
        0,
    )
}

#[test]
fn decisions_report_allowance_and_reason() {
    assert!(ToolGovernanceDecision::Allow.is_allowed());
    assert_eq!(ToolGovernanceDecision::Allow.denial_reason(), None);
    let deny = ToolGovernanceDecision::Deny { reason: "nope".to_owned() };
    assert!(!deny.is_allowed());
    assert_eq!(deny.denial_reason(), Some("nope"));
}

#[test]
fn stub_outcomes() {
    assert_eq!(StubOutcome::Allow.before_call(), Ok(ToolGovernanceDecision::Allow));
    assert_eq!(
        StubOutcome::Deny { reason: "r".to_owned() }.before_call(),
        Ok(ToolGovernanceDecision::Deny { reason: "r".to_owned() })
    );
    assert_eq!(
        StubOutcome::Fail { message: "m".to_owned() }.before_call(),
        Err(ToolGovernanceError::EvaluationFailed { message: "m".to_owned() })
    );
    assert_eq!(StubOutcome::Deny { reason: "r".to_owned() }.after_call(), Ok(()));
    assert!(StubOutcome::Fail { message: "m".to_owned() }.after_call().is_err());
}

#[test]
fn legacy_policies_keep_their_defaults() {
    let server = McpServerId::new();
    let e = entry(server);
    let request = ToolCallRequest::new("read_file", JsonValue::Null, 0);
    assert_eq!(AllowAllPolicy::new().0.enforce_before_call(&request, &e), Ok(ToolGovernanceDecision::Allow));
    assert_eq!(
        DenyAllPolicy::default().0.enforce_before_call(&request, &e),
        Ok(ToolGovernanceDecision::Deny { reason: "tool execution denied".to_owned() })
    );
    assert_eq!(
        FailingPolicy::default().0.enforce_before_call(&request, &e),
        Err(ToolGovernanceError::EvaluationFailed { message: "tool governance failed".to_owned() })
    );
    assert_eq!(StubGovernance::default().enforce_before_call(&request, &e), Ok(ToolGovernanceDecision::Allow));
    assert_eq!(
        ToolGovernanceError::EvaluationFailed { message: "engine down".to_owned() }.message(),
        "tool governance failed: engine down"
    );
}

#[test]
fn first_denying_event_decides() {
    let events = vec![
        PolicyAuditEvent { decision: PolicyAuditDecision::Allow, violation_reason: Some("ignored".to_owned()) },
        PolicyAuditEvent { decision: PolicyAuditDecision::Deny, violation_reason: None },
        PolicyAuditEvent { decision: PolicyAuditDecision::Deny, violation_reason: Some("later".to_owned()) },
    ];
    assert_eq!(denial_reason(events.clone()), Some("policy denied tool call".to_owned()));
    let events2 = vec![PolicyAuditEvent {
        decision: PolicyAuditDecision::Deny,
        violation_reason: Some("tool use is forbidden".to_owned()),
    }];
    assert_eq!(
        decision_from_events(events2),
        ToolGovernanceDecision::Deny { reason: "tool use is forbidden".to_owned() }
    );
    assert_eq!(decision_from_events(Vec::new()), ToolGovernanceDecision::Allow);
}

#[test]
fn hook_backed_adapter_keeps_its_ports() {
    let engine = Arc::new(1u8);
    let repo = Arc::new("repo");
    let g = HookBackedToolExecutionGovernance::new(engine.clone(), repo.clone());
    assert_eq!(**g.engine(), 1u8);
    assert_eq!(**g.audit_repository(), "repo");
}

#[test]
fn scope_metadata_summarizes_call() {
    let server = McpServerId::from_uuid(2);
    let e = entry(server);
    let request = ToolCallRequest::new("read_file", obj(vec![("path", text("/tmp/test.txt"))]), 0);
    let before = build_scope_metadata(&request, &e, None);
    let expected = obj(vec![
        ("call_id", text(&request.call_id().to_text())),
        (
            "parameters",
            obj(vec![
                ("field_count", num(1)),
                (
                    "fields",
                    obj(vec![("path", obj(vec![("kind", text("string")), ("length", num(13))]))]),
                ),
                ("kind", text("object")),
            ]),
        ),
        ("result", JsonValue::Null),
        ("server_id", text("00000000-0000-0000-0000-000000000002")),
        ("tool_name", text("read_file")),
        ("workflow_metadata", obj(vec![("kind", text("null"))])),
    ]);
    assert_eq!(before, expected);
    let result = ToolCallResult::from_request(
        &request,
        server,
        ToolCallOutcome::Failure { error: "boom".to_owned() },
        ToolCallTiming { duration_micros: 1, completed_at: 1 },
    );
    let after = build_scope_metadata(&request, &e, Some(&result));
    match after {
        JsonValue::Object(members) => {
            assert_eq!(
                members[2].1,
                obj(vec![("error", obj(vec![("length", num(4))])), ("status", text("failure"))])
            );
        }
        _ => panic!("metadata should be an object"),
    }
}

#[test]
fn policies_convert_to_and_from_stub_governance() {
    let e = entry(McpServerId::new());
    let request = ToolCallRequest::new("read_file", JsonValue::Null, 0);
    let allow = AllowAllPolicy::from(StubGovernance::denying("blocked"));
    let deny_stub: StubGovernance = allow.into();
    let deny = DenyAllPolicy::from(deny_stub);
    assert_eq!(
        StubGovernance::from(deny).enforce_before_call(&request, &e),
        Ok(ToolGovernanceDecision::Deny { reason: "blocked".to_owned() })
    );
    let failing = FailingPolicy::from(StubGovernance::failing("boom"));
    let back: StubGovernance = failing.into();
    assert_eq!(
        back.enforce_before_call(&request, &e),
        Err(ToolGovernanceError::EvaluationFailed { message: "boom".to_owned() })
    );
}

#[test]
fn trigger_contexts_carry_scope_and_event_time() {
    let server = McpServerId::new();
    let e = entry(server);
    let request = ToolCallRequest::new("read_file", JsonValue::Null, 40)
        .with_task_id(tool_registry::ids::TaskId::from_uuid(7));
    let before = build_trigger_context(HookTriggerType::PreToolUse, &request, &e, None);
    assert_eq!(before.trigger_type, HookTriggerType::PreToolUse);
    assert_eq!(before.occurred_at, 40);
    assert_eq!(before.execution_scope.task_id, Some(tool_registry::ids::TaskId::from_uuid(7)));
    assert_eq!(before.execution_scope.conversation_id, None);
    assert_eq!(before.execution_scope.metadata, build_scope_metadata(&request, &e, None));
    let result = ToolCallResult::from_request(
        &request,
        server,
        ToolCallOutcome::Success { content: JsonValue::Null },
        ToolCallTiming { duration_micros: 5, completed_at: 45 },
    );
    let after = build_trigger_context(HookTriggerType::PostToolUse, &request, &e, Some(&result));
    assert_eq!(after.occurred_at, 45);
    assert_ne!(after.id, before.id);
    let scope = project_execution_scope(request.execution_scope(), JsonValue::Bool(true));
    assert_eq!(scope.metadata, JsonValue::Bool(true));
    assert_eq!(scope.task_id, Some(tool_registry::ids::TaskId::from_uuid(7)));
}

#[test]
fn scope_metadata_sees_only_the_shape_of_payloads() {
    let e = entry(McpServerId::from_uuid(3));
    let first = ToolCallRequest::new("read_file", obj(vec![("path", text("/etc/a")), ("n", num(1))]), 0);
    let second = ToolCallRequest::new("read_file", obj(vec![("path", text("/tmp/b")), ("n", num(7))]), 0);
    let m1 = build_scope_metadata(&first, &e, None);
    let m2 = build_scope_metadata(&second, &e, None);
    match (&m1, &m2) {
        (JsonValue::Object(a), JsonValue::Object(b)) => {
            let keys: Vec<&str> = a.iter().map(|(k, _)| k.as_str()).collect();
            assert_eq!(keys, vec!["call_id", "parameters", "result", "server_id", "tool_name", "workflow_metadata"]);
            assert_eq!(a[1], b[1]);
            assert_eq!(a[2].1, JsonValue::Null);
        }
        _ => panic!("scope metadata should be an object"),
    }
}
