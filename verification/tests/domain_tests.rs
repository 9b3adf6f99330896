use sha2::Digest;
use tool_registry::error::{ParseMcpServerHealthStatusError, ParseMcpServerLifecycleStateError, ToolRegistryDomainError};
use tool_registry::health::{McpServerHealthSnapshot, McpServerHealthStatus};
use tool_registry::ids::{McpServerId, McpServerName, ToolCallId};
use tool_registry::json::JsonValue;
use tool_registry::server::{McpServerLifecycleState, McpServerRegistration};
use tool_registry::summary::summarize_json_footprint;
use tool_registry::tool::McpToolDefinition;
use tool_registry::transport::{HttpSseTransportConfig, McpTransport, StdioTransportConfig};
use tool_registry::validation::validate_parameters;

fn registration() -> McpServerRegistration {
    McpServerRegistration::new(
        McpServerName::new("workspace_tools").unwrap(),
        McpTransport::stdio("mcp-server").unwrap(),
        10,
    )
}

fn obj(members: Vec<(&str, JsonValue)>) -> JsonValue {
    JsonValue::Object(members.into_iter().map(|(k, v)| (k.to_owned(), v)).collect())
}

#[test]
fn registration_starts_in_registered_state() {
    let r = registration();
    assert_eq!(r.lifecycle_state(), McpServerLifecycleState::Registered);
    assert_eq!(r.last_health().unwrap().status(), McpServerHealthStatus::Unknown);
    assert_eq!(r.created_at(), 10);
}

#[test]
fn lifecycle_transition_matrix() {
    let registered = McpServerLifecycleState::Registered;
    let running = McpServerLifecycleState::Running;
    let stopped = McpServerLifecycleState::Stopped;
    let cases = [
        (registered, running, true),
        (registered, stopped, false),
        (running, stopped, true),
        (stopped, running, true),
        (running, registered, false),
        (stopped, registered, false),
    ];
    for (current, target, expected) in cases {
        assert_eq!(current.can_transition_to(target), expected);
    }
}

#[test]
fn mark_started_and_stopped() {
    let mut r = registration();
    r.mark_started(McpServerHealthSnapshot::healthy(20), 20).unwrap();
    assert_eq!(r.lifecycle_state(), McpServerLifecycleState::Running);
    assert_eq!(r.last_health().unwrap().status(), McpServerHealthStatus::Healthy);
    r.mark_stopped(30).unwrap();
    assert_eq!(r.lifecycle_state(), McpServerLifecycleState::Stopped);
    assert_eq!(r.last_health().unwrap().status(), McpServerHealthStatus::Unknown);
    assert_eq!(r.updated_at(), 30);
}

#[test]
fn invalid_transition_attempts_return_error() {
    let mut r = registration();
    let err = r.mark_stopped(5).unwrap_err();
    assert_eq!(
        err,
        ToolRegistryDomainError::InvalidLifecycleTransition { from: "registered".to_owned(), to: "stopped".to_owned() }
    );
    assert_eq!(err.message(), "invalid MCP server lifecycle transition: registered -> stopped");
    assert_eq!(r.lifecycle_state(), McpServerLifecycleState::Registered);
}

#[test]
fn tool_queries_require_running() {
    let r = registration();
    let err = r.ensure_can_query_tools().unwrap_err();
    assert_eq!(
        err,
        ToolRegistryDomainError::ToolQueryRequiresRunning { server_id: r.id(), state: "registered".to_owned() }
    );
}

#[test]
fn state_and_health_texts_round_trip() {
    for s in [McpServerLifecycleState::Registered, McpServerLifecycleState::Running, McpServerLifecycleState::Stopped] {
        assert_eq!(McpServerLifecycleState::parse(s.as_str()), Ok(s));
    }
    assert_eq!(McpServerLifecycleState::parse("  RUNNING "), Ok(McpServerLifecycleState::Running));
    assert_eq!(
        McpServerLifecycleState::parse("paused"),
        Err(ParseMcpServerLifecycleStateError("paused".to_owned()))
    );
    assert_eq!(
        ParseMcpServerLifecycleStateError("paused".to_owned()).message(),
        "unknown MCP server lifecycle state: paused"
    );
    for s in [McpServerHealthStatus::Unknown, McpServerHealthStatus::Healthy, McpServerHealthStatus::Unhealthy] {
        assert_eq!(McpServerHealthStatus::parse(s.as_str()), Ok(s));
    }
    assert!(matches!(McpServerHealthStatus::parse("sick"), Err(ParseMcpServerHealthStatusError(_))));
}

#[test]
fn server_names_are_normalized_and_validated() {
    assert_eq!(McpServerName::new("  Workspace_Tools ").unwrap().as_str(), "workspace_tools");
    assert_eq!(McpServerName::new("   "), Err(ToolRegistryDomainError::EmptyServerName));
    assert_eq!(McpServerName::new("bad-name"), Err(ToolRegistryDomainError::InvalidServerName("bad-name".to_owned())));
    let long = "a".repeat(101);
    assert_eq!(McpServerName::new(&long), Err(ToolRegistryDomainError::ServerNameTooLong(long.clone())));
    assert!(McpServerName::new(&"a".repeat(100)).is_ok());
}

#[test]
fn transports_validate_their_settings() {
    assert_eq!(McpTransport::stdio("  "), Err(ToolRegistryDomainError::EmptyStdioCommand));
    let cfg = StdioTransportConfig::new(" run ")
        .unwrap()
        .with_args(vec!["--x".to_owned()])
        .with_env(vec![("B".to_owned(), "1".to_owned()), ("A".to_owned(), "2".to_owned()), ("B".to_owned(), "3".to_owned())]);
    assert_eq!(cfg.command(), "run");
    assert_eq!(cfg.args(), &["--x".to_owned()][..]);
    assert_eq!(cfg.env(), &[("A".to_owned(), "2".to_owned()), ("B".to_owned(), "3".to_owned())][..]);
    assert_eq!(cfg.with_working_directory(" "), Err(ToolRegistryDomainError::EmptyWorkingDirectory));
    assert_eq!(HttpSseTransportConfig::new("https://x").unwrap().base_url(), "https://x");
    assert_eq!(HttpSseTransportConfig::new(""), Err(ToolRegistryDomainError::EmptyHttpSseBaseUrl));
    assert_eq!(
        McpTransport::http_sse("ftp://x"),
        Err(ToolRegistryDomainError::InvalidHttpSseBaseUrl("ftp://x".to_owned()))
    );
}

#[test]
fn health_snapshots() {
    let h = McpServerHealthSnapshot::unhealthy(5, "  probe timeout ");
    assert_eq!(h.status(), McpServerHealthStatus::Unhealthy);
    assert_eq!(h.message(), Some("probe timeout"));
    assert_eq!(McpServerHealthSnapshot::healthy(5).with_message("   ").message(), None);
}

#[test]
fn tool_definitions_validate_name_and_description() {
    assert_eq!(
        McpToolDefinition::new(" ", "d", JsonValue::Null).unwrap_err(),
        ToolRegistryDomainError::EmptyToolName
    );
    assert_eq!(
        McpToolDefinition::new("t", " ", JsonValue::Null).unwrap_err(),
        ToolRegistryDomainError::EmptyToolDescription
    );
    let t = McpToolDefinition::new(" read_file ", " Reads ", JsonValue::Null).unwrap();
    assert_eq!(t.name(), "read_file");
    assert_eq!(t.description(), "Reads");
}

#[test]
fn parameter_validation() {
    let schema = obj(vec![
        ("required", JsonValue::Array(vec![JsonValue::String("path".to_owned())])),
        ("type", JsonValue::String("object".to_owned())),
    ]);
    assert!(validate_parameters(&schema, &obj(vec![("path", JsonValue::Null)])).is_ok());
    assert_eq!(
        validate_parameters(&schema, &JsonValue::Bool(true)),
        Err(ToolRegistryDomainError::SchemaValidationFailed {
            tool_name: String::new(),
            reason: "parameters must be a JSON object".to_owned()
        })
    );
    assert_eq!(
        validate_parameters(&schema, &obj(vec![])),
        Err(ToolRegistryDomainError::SchemaValidationFailed {
            tool_name: String::new(),
            reason: "missing required parameter: path".to_owned()
        })
    );
}

#[test]
fn footprint_summary_truncates_deep_values() {
    let s = summarize_json_footprint(&JsonValue::Array(vec![JsonValue::Null]), 3);
    let truncated = obj(vec![
        ("kind", JsonValue::String("truncated".to_owned())),
        ("reason", JsonValue::String("max_depth_exceeded".to_owned())),
    ]);
    assert_eq!(
        s,
        obj(vec![
            ("kind", JsonValue::String("array".to_owned())),
            ("length", JsonValue::Number("1".to_owned())),
            ("sample", JsonValue::Array(vec![truncated])),
        ])
    );
}

#[test]
fn summary_of_a_string_counts_chars() {
    let s = summarize_json_footprint(&JsonValue::String("héllo".to_owned()), 0);
    assert_eq!(
        s,
        obj(vec![("kind", JsonValue::String("string".to_owned())), ("length", JsonValue::Number("5".to_owned()))])
    );
    let t = summarize_json_footprint(&JsonValue::Null, 4);
    assert_eq!(
        t,
        obj(vec![
            ("kind", JsonValue::String("truncated".to_owned())),
            ("reason", JsonValue::String("max_depth_exceeded".to_owned()))
        ])
    );
}

#[test]
fn domain_error_texts() {
    assert_eq!(
        ToolRegistryDomainError::AmbiguousToolName { tool_name: "t".to_owned(), server_count: 12 }.message(),
        "ambiguous tool name 't' found on 12 servers"
    );
    assert_eq!(
        ToolRegistryDomainError::ToolCallTimeout { tool_name: "t".to_owned(), call_id: ToolCallId::from_uuid(0xff) }
            .message(),
        "tool call to 't' timed out (call_id: 00000000-0000-0000-0000-0000000000ff)"
    );
    assert_eq!(
        ToolRegistryDomainError::ToolUnavailable { tool_name: "t".to_owned(), server_id: McpServerId::from_uuid(1) }
            .message(),
        "tool 't' on server 00000000-0000-0000-0000-000000000001 is unavailable"
    );
}

#[test]
fn ids_display_as_hyphenated_uuids() {
    let id = McpServerId::from_uuid(0x0123456789abcdef0123456789abcdef);
    assert_eq!(id.to_text(), "01234567-89ab-cdef-0123-456789abcdef");
    assert_eq!(id.into_inner(), 0x0123456789abcdef0123456789abcdef);
    let fresh = McpServerId::new().into_inner();
    assert_eq!((fresh >> 76) & 0xf, 4);
}

#[test]
fn advisory_lock_key_reads_the_digest_prefix() {
    let tenant = tool_registry::ids::TenantId::from_uuid(0x0102030405060708090a0b0c0d0e0f10);
    let digest = sha2::Sha256::digest(
        [1u8, 2, 3, 4, 5, 6, 7, 8, 9, 10, 11, 12, 13, 14, 15, 16],
    );
    let mut first = [0u8; 8];
    first.copy_from_slice(&digest[..8]);
    assert_eq!(tool_registry::lock_key::advisory_lock_key(tenant), i64::from_be_bytes(first));
    let zero = tool_registry::ids::TenantId::from_uuid(0);
    assert_eq!(tool_registry::lock_key::advisory_lock_key(zero), 0x374708fff7719dd5);
}

#[test]
fn with_args_appends_arguments() {
    let cfg = StdioTransportConfig::new("srv")
        .unwrap()
        .with_args(vec!["a".to_owned()])
        .with_args(vec!["b".to_owned(), "c".to_owned()]);
    assert_eq!(cfg.args(), &["a".to_owned(), "b".to_owned(), "c".to_owned()][..]);
    assert_eq!(cfg.command(), "srv");
    assert!(cfg.env().is_empty());
    assert_eq!(cfg.working_directory(), None);
}
