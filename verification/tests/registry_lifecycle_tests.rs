use tool_registry::error::ToolRegistryDomainError;
use tool_registry::health::{McpServerHealthSnapshot, McpServerHealthStatus};
use tool_registry::host::McpServerHostError;
use tool_registry::ids::{McpServerId, McpServerName};
use tool_registry::lifecycle::{
    apply_health_refresh, apply_lifecycle_action, complete_host_action, compensation_host_action,
    prepare_registration, require_queryable, require_server, validate_lookup_name,
    LifecycleCompensationAction, LifecycleHostAction, McpServerLifecycleServiceError,
    RegisterMcpServerRequest,
};
use tool_registry::registry::{McpServerRegistryError, McpServerRegistryState};
use tool_registry::server::{McpServerLifecycleState, McpServerRegistration};
use tool_registry::transport::McpTransport;

fn registration(name: &str) -> McpServerRegistration {
    McpServerRegistration::new(
        McpServerName::new(name).expect("valid name"),
        McpTransport::stdio("mcp-server").expect("valid transport"),
        1_000,
    )
}

#[test]
fn lifecycle_register_and_find_by_name() {
    let mut registry = McpServerRegistryState::new();
    let request = RegisterMcpServerRequest::new(
        "workspace_tools",
        McpTransport::stdio("mcp-server").expect("valid transport"),
    );
    let server = prepare_registration(request, 1_000).expect("registration should succeed");
    registry.register(&server).expect("registration should succeed");
    let name = validate_lookup_name("workspace_tools").expect("lookup should succeed");
    let found = registry.find_by_name(&name).expect("server should exist");
    assert_eq!(found.id(), server.id());
}

#[test]
fn lifecycle_start_unknown_server_returns_not_found() {
    let registry = McpServerRegistryState::new();
    let id = McpServerId::new();
    let result = require_server(id, registry.find_by_id(id));
    assert!(matches!(result, Err(McpServerLifecycleServiceError::NotFound(found)) if found == id));
}

#[test]
fn lifecycle_list_tools_requires_running_server() {
    let server = registration("workspace_tools");
    let result = require_queryable(&server);
    assert!(matches!(
        result,
        Err(McpServerLifecycleServiceError::Domain(ToolRegistryDomainError::ToolQueryRequiresRunning { ref state, .. })) if state == "registered"
    ));
}

#[test]
fn registry_rejects_duplicate_id_and_name() {
    let mut registry = McpServerRegistryState::new();
    let server = registration("workspace_tools");
    registry.register(&server).expect("first registration");
    assert_eq!(registry.register(&server), Err(McpServerRegistryError::DuplicateServer(server.id())));
    let same_name = registration("workspace_tools");
    assert_eq!(
        registry.register(&same_name),
        Err(McpServerRegistryError::DuplicateServerName(McpServerName::new("workspace_tools").unwrap()))
    );
    assert_eq!(registry.list_all().len(), 1);
}

#[test]
fn registry_update_and_rename() {
    let mut registry = McpServerRegistryState::new();
    let a = registration("alpha");
    let b = registration("beta");
    registry.register(&a).unwrap();
    registry.register(&b).unwrap();
    let unknown = registration("gamma");
    assert_eq!(registry.update(&unknown), Err(McpServerRegistryError::NotFound(unknown.id())));
    let mut started = apply_lifecycle_action(&a, LifecycleHostAction::Start, 2_000).unwrap();
    registry.update(&started).expect("update in place");
    assert_eq!(
        registry.find_by_id(a.id()).unwrap().lifecycle_state(),
        McpServerLifecycleState::Running
    );
    let renamed = McpServerRegistration::from_persisted(tool_registry::server::PersistedMcpServerData {
        id: a.id(),
        name: McpServerName::new("beta").unwrap(),
        transport: McpTransport::stdio("x").unwrap(),
        lifecycle_state: McpServerLifecycleState::Running,
        last_health: None,
        created_at: 1,
        updated_at: 2,
    });
    assert!(matches!(registry.update(&renamed), Err(McpServerRegistryError::DuplicateServerName(_))));
    started = McpServerRegistration::from_persisted(tool_registry::server::PersistedMcpServerData {
        id: a.id(),
        name: McpServerName::new("delta").unwrap(),
        transport: McpTransport::stdio("x").unwrap(),
        lifecycle_state: McpServerLifecycleState::Running,
        last_health: None,
        created_at: 1,
        updated_at: 2,
    });
    registry.update(&started).expect("rename to a free name");
    assert!(registry.find_by_name(&McpServerName::new("alpha").unwrap()).is_none());
    assert_eq!(registry.find_by_name(&McpServerName::new("delta").unwrap()).unwrap().id(), a.id());
}

#[test]
fn start_then_stop_lifecycle() {
    let server = registration("workspace_tools");
    assert!(matches!(
        apply_lifecycle_action(&server, LifecycleHostAction::Stop, 5),
        Err(McpServerLifecycleServiceError::Domain(ToolRegistryDomainError::InvalidLifecycleTransition { .. }))
    ));
    let started = apply_lifecycle_action(&server, LifecycleHostAction::Start, 5).unwrap();
    assert_eq!(started.lifecycle_state(), McpServerLifecycleState::Running);
    assert_eq!(started.last_health().unwrap().status(), McpServerHealthStatus::Unknown);
    assert_eq!(started.updated_at(), 5);
    assert_eq!(started.created_at(), 1_000);
    let stopped = apply_lifecycle_action(&started, LifecycleHostAction::Stop, 9).unwrap();
    assert_eq!(stopped.lifecycle_state(), McpServerLifecycleState::Stopped);
    let restarted = apply_lifecycle_action(&stopped, LifecycleHostAction::Start, 11).unwrap();
    assert_eq!(restarted.lifecycle_state(), McpServerLifecycleState::Running);
}

#[test]
fn compensation_undoes_the_host_action() {
    assert_eq!(LifecycleHostAction::Start.compensation(), LifecycleCompensationAction::Stop);
    assert_eq!(LifecycleHostAction::Stop.compensation(), LifecycleCompensationAction::Start);
    assert_eq!(compensation_host_action(Some(LifecycleCompensationAction::Stop)), Some(LifecycleHostAction::Stop));
    assert_eq!(compensation_host_action(None), None);
    let server = registration("workspace_tools");
    let change = complete_host_action(server.cloned(), LifecycleHostAction::Start, Ok(Some(b"boot".to_vec())))
        .expect("host start succeeded");
    assert_eq!(change.compensation, Some(LifecycleCompensationAction::Stop));
    assert_eq!(change.startup_stderr, Some(b"boot".to_vec()));
    let failure = complete_host_action(server, LifecycleHostAction::Start, Err(McpServerHostError::NotRunning(McpServerId::from_uuid(1))));
    assert!(matches!(failure, Err(McpServerLifecycleServiceError::Host(_))));
}

#[test]
fn health_refresh_keeps_state() {
    let server = registration("workspace_tools");
    let change = apply_health_refresh(&server, McpServerHealthSnapshot::unhealthy(77, "probe timeout"), 77);
    assert_eq!(change.updated_server.lifecycle_state(), McpServerLifecycleState::Registered);
    let h = change.updated_server.last_health().expect("health snapshot should exist");
    assert_eq!(h.status(), McpServerHealthStatus::Unhealthy);
    assert_eq!(h.message(), Some("probe timeout"));
    assert_eq!(change.compensation, None);
}

#[test]
fn invalid_names_are_refused() {
    let request = RegisterMcpServerRequest::new("Bad Name!", McpTransport::stdio("x").unwrap());
    assert!(matches!(
        prepare_registration(request, 0),
        Err(McpServerLifecycleServiceError::Domain(ToolRegistryDomainError::InvalidServerName(_)))
    ));
    assert!(matches!(validate_lookup_name("  "), Err(McpServerLifecycleServiceError::Domain(ToolRegistryDomainError::EmptyServerName))));
}

#[test]
fn registry_error_texts() {
    let id = McpServerId::from_uuid(5);
    assert_eq!(
        McpServerRegistryError::NotFound(id).message(),
        "MCP server not found: 00000000-0000-0000-0000-000000000005"
    );
    assert_eq!(McpServerLifecycleServiceError::NotFound(id).message(), "MCP server 00000000-0000-0000-0000-000000000005 not found");
}
