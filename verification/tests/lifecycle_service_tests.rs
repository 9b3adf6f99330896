use tool_registry::error::ToolRegistryDomainError;
use tool_registry::health::McpServerHealthStatus;
use tool_registry::host::McpServerHostError;
use tool_registry::ids::{McpServerId, McpServerName};
use tool_registry::json::JsonValue;
use tool_registry::lifecycle::{
    prepare_registration, require_queryable, require_server, start_refresh_error, stdio_request,
    validate_lookup_name, LifecycleChange, LifecycleHostAction, McpServerLifecycleServiceError,
};
use tool_registry::discovery_flow::{DiscoveryEvent, DiscoveryFlow, DiscoveryStep};
use tool_registry::lifecycle_flow::{LifecycleEvent, LifecycleFlow, LifecycleStep};
use tool_registry::registry::McpServerRegistryState;
use tool_registry::runtime::InMemoryHostState;
use tool_registry::server::{McpServerLifecycleState, McpServerRegistration};
use tool_registry::tool::McpToolDefinition;

/// The lifecycle service's port calls, answered by the in-memory registry
/// and host, with a clock that ticks once per step.
struct Harness {
    registry: McpServerRegistryState,
    host: InMemoryHostState,
    fail_health: bool,
    clock: i64,
}

impl Harness {
    fn new() -> Self {
        Self { registry: McpServerRegistryState::new(), host: InMemoryHostState::new(), fail_health: false, clock: 1_000 }
    }

    fn tick(&mut self) -> i64 {
        self.clock += 1;
        self.clock
    }

    fn run(&mut self, server_id: McpServerId, action: Option<LifecycleHostAction>) -> Result<LifecycleChange, McpServerLifecycleServiceError> {
        let (mut flow, mut step) = LifecycleFlow::begin(server_id, action);
        loop {
            let event = match step {
                LifecycleStep::FindServer(id) => LifecycleEvent::ServerFound(Ok(self.registry.find_by_id(id))),
                LifecycleStep::RunHost(LifecycleHostAction::Start, s) => {
                    LifecycleEvent::HostActed(Ok(self.host.start(&s).stderr_output))
                }
                LifecycleStep::RunHost(LifecycleHostAction::Stop, s) => {
                    self.host.stop(&s);
                    LifecycleEvent::HostActed(Ok(None))
                }
                LifecycleStep::CheckHealth(s) => {
                    if self.fail_health {
                        LifecycleEvent::HealthChecked(Err(McpServerHostError::CommunicationError {
                            server_id: s.id(),
                            reason: "health probe failed".to_owned(),
                        }))
                    } else {
                        let now = self.tick();
                        LifecycleEvent::HealthChecked(Ok(self.host.health(&s, now)))
                    }
                }
                LifecycleStep::UpdateServer(s) => LifecycleEvent::Persisted(self.registry.update(&s)),
                LifecycleStep::Compensate(LifecycleHostAction::Start, s) => {
                    self.host.start(&s);
                    LifecycleEvent::Compensated(Ok(()))
                }
                LifecycleStep::Compensate(LifecycleHostAction::Stop, s) => {
                    self.host.stop(&s);
                    LifecycleEvent::Compensated(Ok(()))
                }
                LifecycleStep::Finish(outcome) => return outcome,
            };
            assert!(flow.expects(&event));
            let now = self.tick();
            (flow, step) = flow.step(event, now);
        }
    }

    fn register(&mut self, name: &str) -> McpServerRegistration {
        let request = stdio_request(name).expect("valid request");
        let server = prepare_registration(request, self.clock).expect("registration should succeed");
        self.registry.register(&server).expect("registration should succeed");
        server
    }

    fn start(&mut self, id: McpServerId) -> Result<McpServerRegistration, McpServerLifecycleServiceError> {
        self.run(id, Some(LifecycleHostAction::Start))?;
        self.run(id, None).map(|c| c.updated_server).map_err(|e| start_refresh_error(id, e))
    }

    fn stop(&mut self, id: McpServerId) -> Result<McpServerRegistration, McpServerLifecycleServiceError> {
        self.run(id, Some(LifecycleHostAction::Stop)).map(|c| c.updated_server)
    }

    fn list_tools(&self, id: McpServerId) -> Result<Vec<McpToolDefinition>, McpServerLifecycleServiceError> {
        let server = require_server(id, self.registry.find_by_id(id))?;
        require_queryable(&server)?;
        self.host.list_tools(&server).map_err(McpServerLifecycleServiceError::Host)
    }
}

fn read_file_tool() -> McpToolDefinition {
    McpToolDefinition::new(
        "read_file",
        "Reads a file from the workspace",
        JsonValue::Object(vec![
            ("type".to_owned(), JsonValue::String("object".to_owned())),
            (
                "properties".to_owned(),
                JsonValue::Object(vec![(
                    "path".to_owned(),
                    JsonValue::Object(vec![("type".to_owned(), JsonValue::String("string".to_owned()))]),
                )]),
            ),
        ]),
    )
    .expect("tool definition should be valid")
}

fn name(s: &str) -> McpServerName {
    McpServerName::new(s).expect("valid name")
}

#[test]
fn tests_register_and_find_by_name() {
    let mut h = Harness::new();
    let registered = h.register("workspace_tools");
    let lookup = validate_lookup_name("workspace_tools").expect("valid name");
    let found = h.registry.find_by_name(&lookup).expect("server should exist");
    assert_eq!(found.id(), registered.id());
}

#[test]
fn tests_start_unknown_server_returns_not_found() {
    let mut h = Harness::new();
    let result = h.start(McpServerId::new());
    assert!(matches!(result, Err(McpServerLifecycleServiceError::NotFound(_))));
}

#[test]
fn tests_list_tools_requires_running_server() {
    let mut h = Harness::new();
    let registered = h.register("workspace_tools");
    let result = h.list_tools(registered.id());
    assert!(matches!(
        result,
        Err(McpServerLifecycleServiceError::Domain(ToolRegistryDomainError::ToolQueryRequiresRunning { .. }))
    ));
}

#[test]
fn start_and_list_tools() {
    let mut h = Harness::new();
    h.host.set_tool_catalog(&name("workspace_tools"), vec![read_file_tool()]);
    let registered = h.register("workspace_tools");
    let started = h.start(registered.id()).expect("start should succeed");
    let tools = h.list_tools(started.id()).expect("tool listing should succeed");
    assert_eq!(tools.len(), 1);
    assert_eq!(tools.first().expect("tool should exist").name(), "read_file");
}

#[test]
fn lifecycle_scenarios() {
    for scenario in 0..4 {
        let mut h = Harness::new();
        h.host.set_tool_catalog(&name("workspace_tools"), vec![read_file_tool()]);
        let registered = h.register("workspace_tools");
        let started = h.start(registered.id()).expect("start should succeed");
        assert_eq!(started.lifecycle_state(), McpServerLifecycleState::Running);
        match scenario {
            0 => {
                let tools = h.list_tools(started.id()).expect("listing");
                assert_eq!(tools.len(), 1);
                assert_eq!(tools.first().expect("tool should exist").name(), "read_file");
            }
            1 => {
                let stopped = h.stop(started.id()).expect("stop");
                assert_eq!(stopped.lifecycle_state(), McpServerLifecycleState::Stopped);
                assert!(matches!(
                    h.list_tools(started.id()),
                    Err(McpServerLifecycleServiceError::Domain(ToolRegistryDomainError::ToolQueryRequiresRunning { .. }))
                ));
            }
            2 => {
                h.host.set_unhealthy(started.id(), "probe timeout");
                let refreshed = h.run(started.id(), None).expect("refresh").updated_server;
                assert_eq!(refreshed.lifecycle_state(), McpServerLifecycleState::Running);
                let health = refreshed.last_health().expect("health snapshot should exist");
                assert_eq!(health.status(), McpServerHealthStatus::Unhealthy);
                assert_eq!(health.message(), Some("probe timeout"));
            }
            _ => {
                let stopped = h.stop(started.id()).expect("stop");
                assert_eq!(stopped.lifecycle_state(), McpServerLifecycleState::Stopped);
                let restarted = h.start(started.id()).expect("restart");
                assert_eq!(restarted.lifecycle_state(), McpServerLifecycleState::Running);
                assert_eq!(h.list_tools(started.id()).expect("listing").len(), 1);
            }
        }
    }
}

#[test]
fn start_returns_health_refresh_failed_when_health_probe_fails() {
    let mut h = Harness::new();
    h.fail_health = true;
    let registered = h.register("workspace_tools");
    let result = h.start(registered.id());
    assert!(matches!(result, Err(McpServerLifecycleServiceError::HealthRefreshFailed { .. })));
    match result {
        Err(e) => assert_eq!(
            e.message(),
            format!(
                "health refresh failed after starting MCP server {}: MCP host communication error for server {}: health probe failed",
                registered.id().to_text(),
                registered.id().to_text()
            )
        ),
        Ok(_) => unreachable!(),
    }
}

#[test]
fn mark_unavailable_updates_catalog() {
    let mut h = Harness::new();
    h.host.set_tool_catalog(&name("workspace_tools"), vec![read_file_tool()]);
    let registered = h.register("workspace_tools");
    let started = h.start(registered.id()).expect("start");
    let running = tool_registry::discovery::require_running_server(started.id(), h.registry.find_by_id(started.id()))
        .expect("running server");
    let tools = h.host.list_tools(&running).expect("tools");
    let entries = tool_registry::discovery::entries_for_discovered_tools(&running, tools, h.clock);
    let mut catalog = tool_registry::catalog::ToolCatalogState::new();
    catalog.sync_server_tools(started.id(), &entries).expect("sync");
    catalog.mark_server_tools_unavailable(started.id(), h.clock + 1);
    let all = catalog.list_all();
    assert_eq!(all.len(), 1);
    assert!(!all.first().expect("catalog entry").available());
}

#[test]
fn startup_stderr_captured_end_to_end() {
    let mut h = Harness::new();
    let stderr = b"server initialising...".to_vec();
    h.host.set_startup_stderr(&name("workspace_tools"), stderr.clone());
    let registered = h.register("workspace_tools");
    let change = h.run(registered.id(), Some(LifecycleHostAction::Start)).expect("start");
    let captured = change.startup_stderr.expect("startup stderr should be captured");
    assert_eq!(captured, stderr);
    let retention = tool_registry::log_capture::LogRetentionPolicy::default();
    let ctx = tool_registry::log_capture::LogCaptureContext {
        now: h.clock,
        retention: &retention,
        tenant_id: tool_registry::ids::TenantId::from_uuid(1),
    };
    let metadata = tool_registry::log_capture::LogEntryMetadata::for_startup(
        registered.id(),
        captured.len() as u64,
        &ctx,
    );
    assert!(metadata.object_path().contains("startup"));
    assert_eq!(metadata.server_id(), registered.id());
}

fn discover(
    h: &Harness,
    catalog: &mut tool_registry::catalog::ToolCatalogState,
    server_id: McpServerId,
) -> Result<Vec<tool_registry::catalog::CatalogEntry>, tool_registry::discovery::ToolDiscoveryRoutingServiceError> {
    let (mut flow, mut step) = DiscoveryFlow::begin(server_id);
    loop {
        let event = match step {
            DiscoveryStep::FindServer(id) => DiscoveryEvent::ServerFound(Ok(h.registry.find_by_id(id))),
            DiscoveryStep::ListTools(server) => DiscoveryEvent::ToolsListed(h.host.list_tools(&server)),
            DiscoveryStep::SyncTools(id, entries) => DiscoveryEvent::Synced(catalog.sync_server_tools(id, &entries)),
            DiscoveryStep::Finish(outcome) => return outcome,
        };
        assert!(flow.expects(&event));
        (flow, step) = flow.step(event, h.clock);
    }
}

#[test]
fn discovery_flow_persists_the_listed_tools() {
    let mut h = Harness::new();
    h.host.set_tool_catalog(&name("workspace_tools"), vec![read_file_tool()]);
    let registered = h.register("workspace_tools");
    let mut catalog = tool_registry::catalog::ToolCatalogState::new();
    assert!(matches!(
        discover(&h, &mut catalog, registered.id()),
        Err(tool_registry::discovery::ToolDiscoveryRoutingServiceError::Domain(
            ToolRegistryDomainError::ToolQueryRequiresRunning { .. }
        ))
    ));
    assert!(matches!(
        discover(&h, &mut catalog, McpServerId::from_uuid(77)),
        Err(tool_registry::discovery::ToolDiscoveryRoutingServiceError::NotFound(_))
    ));
    h.start(registered.id()).expect("start");
    let entries = discover(&h, &mut catalog, registered.id()).expect("discovery");
    assert_eq!(entries.len(), 1);
    assert_eq!(entries[0].tool().name(), "read_file");
    assert_eq!(entries[0].server_id(), registered.id());
    let listed = catalog.list_all();
    assert_eq!(listed.len(), 1);
    assert_eq!(listed[0].id(), entries[0].id());
}

#[test]
fn discovery_flow_reports_a_name_taken_by_another_server_as_ambiguous() {
    let mut h = Harness::new();
    h.host.set_tool_catalog(&name("alpha"), vec![read_file_tool()]);
    h.host.set_tool_catalog(&name("beta"), vec![read_file_tool()]);
    let alpha = h.register("alpha");
    let beta = h.register("beta");
    h.start(alpha.id()).expect("start alpha");
    h.start(beta.id()).expect("start beta");
    let mut catalog = tool_registry::catalog::ToolCatalogState::new();
    discover(&h, &mut catalog, alpha.id()).expect("first discovery");
    match discover(&h, &mut catalog, beta.id()) {
        Err(tool_registry::discovery::ToolDiscoveryRoutingServiceError::Domain(
            ToolRegistryDomainError::AmbiguousToolName { tool_name, server_count },
        )) => {
            assert_eq!(tool_name, "read_file");
            assert_eq!(server_count, 2);
        }
        other => panic!("expected an ambiguous name, got {other:?}"),
    }
}
