use tool_registry::health::McpServerHealthStatus;
use tool_registry::host::McpServerHostError;
use tool_registry::ids::McpServerName;
use tool_registry::json::JsonValue;
use tool_registry::runtime::InMemoryHostState;
use tool_registry::server::McpServerRegistration;
use tool_registry::tool::McpToolDefinition;
use tool_registry::transport::McpTransport;

fn server(name: &str) -> McpServerRegistration {
    McpServerRegistration::new(
        McpServerName::new(name).unwrap(),
        McpTransport::stdio("mcp-server").unwrap(),
        0,
    )
}

#[test]
fn health_follows_running_and_reports() {
    let mut host = InMemoryHostState::new();
    let s = server("workspace_tools");
    assert_eq!(host.health(&s, 1).status(), McpServerHealthStatus::Unknown);
    host.start(&s);
    assert_eq!(host.health(&s, 2).status(), McpServerHealthStatus::Healthy);
    host.set_unhealthy(s.id(), "  probe timeout ");
    let h = host.health(&s, 3);
    assert_eq!(h.status(), McpServerHealthStatus::Unhealthy);
    assert_eq!(h.message(), Some("probe timeout"));
    host.start(&s);
    assert_eq!(host.health(&s, 4).status(), McpServerHealthStatus::Healthy);
    host.stop(&s);
    assert_eq!(host.health(&s, 5).status(), McpServerHealthStatus::Unknown);
}

#[test]
fn listing_and_calling_need_a_running_server() {
    let mut host = InMemoryHostState::new();
    let s = server("workspace_tools");
    assert_eq!(host.list_tools(&s).unwrap_err(), McpServerHostError::NotRunning(s.id()));
    assert_eq!(host.call_tool(&s, "read_file").unwrap_err(), McpServerHostError::NotRunning(s.id()));
    host.set_startup_stderr(s.name(), b"server initialising...".to_vec());
    let started = host.start(&s);
    assert_eq!(started.stderr_output, Some(b"server initialising...".to_vec()));
    assert!(host.list_tools(&s).unwrap().is_empty());
    let tool = McpToolDefinition::new("read_file", "Reads", JsonValue::Null).unwrap();
    host.set_tool_catalog(s.name(), vec![tool]);
    assert_eq!(host.list_tools(&s).unwrap()[0].name(), "read_file");
    assert_eq!(
        host.call_tool(&s, "read_file").unwrap_err(),
        McpServerHostError::ToolCallFailed {
            server_id: s.id(),
            tool_name: "read_file".to_owned(),
            reason: "no result configured for this tool".to_owned()
        }
    );
    host.set_tool_call_result(s.name(), "read_file", JsonValue::String("first".to_owned()));
    host.set_tool_call_result(s.name(), "read_file", JsonValue::String("latest".to_owned()));
    host.set_tool_call_stderr(s.name(), "read_file", b"debug".to_vec());
    let answer = host.call_tool(&s, "read_file").unwrap();
    assert_eq!(answer.content, JsonValue::String("latest".to_owned()));
    assert_eq!(answer.stderr_output, Some(b"debug".to_vec()));
}
