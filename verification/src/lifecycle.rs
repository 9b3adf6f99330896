//! Decisions of server lifecycle orchestration: registering a server,
//! applying a start or stop to a registration before the host acts, the
//! compensation owed when persisting a change fails, and health refreshes.

use crate::error::{domain_error_text, ToolRegistryDomainError};
use crate::health::{HealthSnapshotView, McpServerHealthSnapshot, McpServerHealthStatus};
use crate::host::{host_error_text, McpServerHostError};
use crate::ids::{normalize_server_name, uuid_text_spec, valid_server_name, McpServerId, McpServerName};
use crate::registry::{registry_error_text, McpServerRegistryError};
use crate::server::{
    lifecycle_text, transition_allowed, McpServerLifecycleState, McpServerRegistration, RegistrationView,
};
use crate::text::{push_str, push_uuid, string_from_chars};
use crate::transport::{McpTransport, TransportView};
use vstd::prelude::*;

verus! {

/// Request payload for registering an MCP server.
#[derive(Debug, PartialEq, Eq)]
pub struct RegisterMcpServerRequest {
    /// Human-readable server name.
    pub name: String,
    /// Transport settings.
    pub transport: McpTransport,
}

impl RegisterMcpServerRequest {
    /// Creates a registration request.
    pub fn new(name: &str, transport: McpTransport) -> (r: Self)
        ensures
            r.name@ == name@,
            r.transport@ == transport@,
    {
        RegisterMcpServerRequest { name: name.to_owned(), transport }
    }
}

/// A registration request for a server run over STDIO by the
/// `mcp-server` command.
pub fn stdio_request(name: &str) -> (r: Result<RegisterMcpServerRequest, ToolRegistryDomainError>)
    ensures
        match r {
            Ok(req) => req.name@ == name@ && req.transport@ == TransportView::Stdio(
                crate::transport::StdioTransportView {
                    command: "mcp-server"@,
                    args: Seq::empty(),
                    env: Seq::empty(),
                    working_directory: None,
                },
            ),
            Err(_) => false,
        },
{
    proof {
        reveal_strlit("mcp-server");
        let x = "mcp-server"@;
        assert(!crate::text::is_unicode_whitespace(x[0]));
        assert(crate::text::trim_start_spec(x) == x);
        assert(!crate::text::is_unicode_whitespace(x.last()));
        assert(crate::text::trim_end_spec(x) == x);
    }
    match McpTransport::stdio("mcp-server") {
        Ok(transport) => Ok(RegisterMcpServerRequest::new(name, transport)),
        Err(e) => Err(e),
    }
}

/// Service-level errors for lifecycle orchestration.
#[derive(Debug, PartialEq, Eq)]
pub enum McpServerLifecycleServiceError {
    /// Domain validation failed.
    Domain(ToolRegistryDomainError),
    /// Repository operation failed.
    Repository(McpServerRegistryError),
    /// Runtime host operation failed.
    Host(McpServerHostError),
    /// No server exists with the given identifier.
    NotFound(McpServerId),
    /// The server started, but probing its health afterwards failed.
    HealthRefreshFailed {
        /// The started server.
        server_id: McpServerId,
        /// The host's failure to report health.
        source: McpServerHostError,
    },
}

/// The human-readable text of a lifecycle service error.
pub open spec fn lifecycle_error_text(e: McpServerLifecycleServiceError) -> Seq<char> {
    match e {
        McpServerLifecycleServiceError::Domain(d) => domain_error_text(d),
        McpServerLifecycleServiceError::Repository(r) => registry_error_text(r),
        McpServerLifecycleServiceError::Host(h) => host_error_text(h),
        McpServerLifecycleServiceError::NotFound(id) => "MCP server "@ + uuid_text_spec(id.0)
            + " not found"@,
        McpServerLifecycleServiceError::HealthRefreshFailed { server_id, source } =>
            "health refresh failed after starting MCP server "@ + uuid_text_spec(server_id.0) + ": "@
                + host_error_text(source),
    }
}

impl McpServerLifecycleServiceError {
    /// The human-readable text of this error.
    pub fn message(&self) -> (r: String)
        ensures
            r@ == lifecycle_error_text(*self),
    {
        match self {
            McpServerLifecycleServiceError::Domain(d) => d.message(),
            McpServerLifecycleServiceError::Repository(r) => r.message(),
            McpServerLifecycleServiceError::Host(h) => h.message(),
            McpServerLifecycleServiceError::NotFound(id) => {
                let mut v: Vec<char> = Vec::new();
                push_str(&mut v, "MCP server ");
                push_uuid(&mut v, id.0);
                push_str(&mut v, " not found");
                string_from_chars(v.as_slice())
            },
            McpServerLifecycleServiceError::HealthRefreshFailed { server_id, source } => {
                let mut v: Vec<char> = Vec::new();
                push_str(&mut v, "health refresh failed after starting MCP server ");
                push_uuid(&mut v, server_id.0);
                push_str(&mut v, ": ");
                let h = source.message();
                push_str(&mut v, h.as_str());
                string_from_chars(v.as_slice())
            },
        }
    }
}

/// The host action that undoes a lifecycle change whose persistence failed.
#[derive(Debug, Clone, Copy, PartialEq, Eq)]
pub enum LifecycleCompensationAction {
    /// Start the server again.
    Start,
    /// Stop the server again.
    Stop,
}

/// The host action a lifecycle change performs.
#[derive(Debug, Clone, Copy, PartialEq, Eq)]
pub enum LifecycleHostAction {
    /// Start the server.
    Start,
    /// Stop the server.
    Stop,
}

impl LifecycleHostAction {
    /// The action that undoes this one: stopping undoes a start, starting
    /// undoes a stop.
    pub fn compensation(self) -> (r: LifecycleCompensationAction)
        ensures
            self == LifecycleHostAction::Start ==> r == LifecycleCompensationAction::Stop,
            self == LifecycleHostAction::Stop ==> r == LifecycleCompensationAction::Start,
    {
        match self {
            LifecycleHostAction::Start => LifecycleCompensationAction::Stop,
            LifecycleHostAction::Stop => LifecycleCompensationAction::Start,
        }
    }
}

/// A lifecycle change ready to persist: the updated registration, the
/// compensation owed if persisting fails, and the stderr a start captured.
#[derive(Debug)]
pub struct LifecycleChange {
    /// The registration after the change.
    pub updated_server: McpServerRegistration,
    /// The host action that undoes the change, if any.
    pub compensation: Option<LifecycleCompensationAction>,
    /// Stderr captured while starting, if any.
    pub startup_stderr: Option<Vec<u8>>,
}

impl LifecycleChange {
    /// A change that owes no compensation.
    pub fn without_compensation(updated_server: McpServerRegistration) -> (r: Self)
        ensures
            r.updated_server@ == updated_server@,
            r.compensation is None,
            r.startup_stderr is None,
    {
        LifecycleChange { updated_server, compensation: None, startup_stderr: None }
    }

    /// A change that owes `compensation` if persisting it fails.
    pub fn with_compensation(updated_server: McpServerRegistration, compensation: LifecycleCompensationAction) -> (r: Self)
        ensures
            r.updated_server@ == updated_server@,
            r.compensation == Some(compensation),
            r.startup_stderr is None,
    {
        LifecycleChange { updated_server, compensation: Some(compensation), startup_stderr: None }
    }

    /// Attaches the stderr captured while starting.
    pub fn with_startup_stderr(self, stderr: Option<Vec<u8>>) -> (r: Self)
        ensures
            r.updated_server@ == self.updated_server@,
            r.compensation == self.compensation,
            r.startup_stderr == stderr,
    {
        let LifecycleChange { updated_server, compensation, startup_stderr: _ } = self;
        LifecycleChange { updated_server, compensation, startup_stderr: stderr }
    }
}

/// A host action paired with the change it makes to the registration.
#[derive(Debug)]
pub struct LifecycleTransition<DomainMut> {
    /// The host action.
    pub host_action: LifecycleHostAction,
    /// The change to the registration.
    pub domain_mutation: DomainMut,
}

impl<DomainMut> LifecycleTransition<DomainMut> {
    /// Pairs a host action with its registration change.
    pub fn new(host_action: LifecycleHostAction, domain_mutation: DomainMut) -> (r: Self)
        ensures
            r.host_action == host_action,
            r.domain_mutation == domain_mutation,
    {
        LifecycleTransition { host_action, domain_mutation }
    }
}

/// Validates a registration request and builds the registration, in the
/// `registered` state at `now`.
pub fn prepare_registration(request: RegisterMcpServerRequest, now: i64) -> (r: Result<McpServerRegistration, McpServerLifecycleServiceError>)
    ensures
        match r {
            Ok(s) => valid_server_name(normalize_server_name(request.name@)) && s@.name == normalize_server_name(request.name@)
                && s@.transport == request.transport@ && s@.lifecycle_state == McpServerLifecycleState::Registered
                && s@.created_at == now && s@.updated_at == now,
            Err(McpServerLifecycleServiceError::Domain(_)) => !valid_server_name(normalize_server_name(request.name@)),
            Err(_) => false,
        },
{
    let RegisterMcpServerRequest { name, transport } = request;
    match McpServerName::new(name.as_str()) {
        Ok(server_name) => Ok(McpServerRegistration::new(server_name, transport, now)),
        Err(e) => Err(McpServerLifecycleServiceError::Domain(e)),
    }
}

/// The registration looked up for a lifecycle operation must exist.
pub fn require_server(server_id: McpServerId, found: Option<McpServerRegistration>) -> (r: Result<McpServerRegistration, McpServerLifecycleServiceError>)
    ensures
        match found {
            Some(s) => r matches Ok(t) && t@ == s@,
            None => r == Err::<McpServerRegistration, McpServerLifecycleServiceError>(McpServerLifecycleServiceError::NotFound(server_id)),
        },
{
    match found {
        Some(s) => Ok(s),
        None => Err(McpServerLifecycleServiceError::NotFound(server_id)),
    }
}

/// The registration as a start (health reset to `unknown`) or a stop
/// leaves it at `now`, before the host acts; refused as an invalid
/// transition, with the server unchanged, when the state does not allow it.
pub fn apply_lifecycle_action(
    server: &McpServerRegistration,
    action: LifecycleHostAction,
    now: i64,
) -> (r: Result<McpServerRegistration, McpServerLifecycleServiceError>)
    ensures
        ({
            let target = match action {
                LifecycleHostAction::Start => McpServerLifecycleState::Running,
                LifecycleHostAction::Stop => McpServerLifecycleState::Stopped,
            };
            let unknown = HealthSnapshotView { status: McpServerHealthStatus::Unknown, checked_at: now, message: None };
            match r {
                Ok(s) => transition_allowed(server@.lifecycle_state, target) && s@ == (RegistrationView {
                    lifecycle_state: target,
                    last_health: Some(unknown),
                    updated_at: now,
                    ..server@
                }),
                Err(McpServerLifecycleServiceError::Domain(
                    ToolRegistryDomainError::InvalidLifecycleTransition { from, to },
                )) => !transition_allowed(server@.lifecycle_state, target) && from@ == lifecycle_text(
                    server@.lifecycle_state,
                ) && to@ == lifecycle_text(target),
                Err(_) => false,
            }
        }),
{
    let mut updated = server.cloned();
    let res = match action {
        LifecycleHostAction::Start => updated.mark_started(McpServerHealthSnapshot::unknown(now), now),
        LifecycleHostAction::Stop => updated.mark_stopped(now),
    };
    match res {
        Ok(()) => Ok(updated),
        Err(e) => Err(McpServerLifecycleServiceError::Domain(e)),
    }
}

/// The change a lifecycle action makes once the host has acted: the
/// updated registration, owing the action's compensation, with the stderr
/// a start captured; a host failure is the operation's error.
pub fn complete_host_action(
    updated_server: McpServerRegistration,
    action: LifecycleHostAction,
    host_outcome: Result<Option<Vec<u8>>, McpServerHostError>,
) -> (r: Result<LifecycleChange, McpServerLifecycleServiceError>)
    ensures
        match host_outcome {
            Ok(stderr) => r matches Ok(c) && c.updated_server@ == updated_server@ && c.compensation == Some(
                match action {
                    LifecycleHostAction::Start => LifecycleCompensationAction::Stop,
                    LifecycleHostAction::Stop => LifecycleCompensationAction::Start,
                },
            ) && c.startup_stderr == stderr,
            Err(e) => r == Err::<LifecycleChange, McpServerLifecycleServiceError>(McpServerLifecycleServiceError::Host(e)),
        },
{
    match host_outcome {
        Ok(stderr) => Ok(LifecycleChange::with_compensation(updated_server, action.compensation()).with_startup_stderr(stderr)),
        Err(e) => Err(McpServerLifecycleServiceError::Host(e)),
    }
}

/// The host action to run when persisting a change failed: the change's
/// compensation, if it owes one.
pub fn compensation_host_action(compensation: Option<LifecycleCompensationAction>) -> (r: Option<LifecycleHostAction>)
    ensures
        compensation == Some(LifecycleCompensationAction::Start) ==> r == Some(LifecycleHostAction::Start),
        compensation == Some(LifecycleCompensationAction::Stop) ==> r == Some(LifecycleHostAction::Stop),
        compensation is None ==> r is None,
{
    match compensation {
        Some(LifecycleCompensationAction::Start) => Some(LifecycleHostAction::Start),
        Some(LifecycleCompensationAction::Stop) => Some(LifecycleHostAction::Stop),
        None => None,
    }
}

/// The registration with a refreshed health snapshot taken at `now`; its
/// lifecycle state is kept.
pub fn apply_health_refresh(server: &McpServerRegistration, snapshot: McpServerHealthSnapshot, now: i64) -> (r: LifecycleChange)
    ensures
        r.updated_server@ == (RegistrationView { last_health: Some(snapshot@), updated_at: now, ..server@ }),
        r.compensation is None,
        r.startup_stderr is None,
{
    let mut refreshed = server.cloned();
    refreshed.update_health(snapshot, now);
    LifecycleChange::without_compensation(refreshed)
}

/// The error of a start whose health refresh failed: the host's failure
/// to report health becomes [`McpServerLifecycleServiceError::HealthRefreshFailed`]
/// for the started server; any other error is kept.
pub fn start_refresh_error(server_id: McpServerId, error: McpServerLifecycleServiceError) -> (r: McpServerLifecycleServiceError)
    ensures
        match error {
            McpServerLifecycleServiceError::Host(h) => r == (McpServerLifecycleServiceError::HealthRefreshFailed {
                server_id,
                source: h,
            }),
            _ => r == error,
        },
{
    match error {
        McpServerLifecycleServiceError::Host(h) => McpServerLifecycleServiceError::HealthRefreshFailed { server_id, source: h },
        other => other,
    }
}

/// Validates a server name given for a lookup.
pub fn validate_lookup_name(server_name: &str) -> (r: Result<McpServerName, McpServerLifecycleServiceError>)
    ensures
        match r {
            Ok(n) => valid_server_name(normalize_server_name(server_name@)) && n@ == normalize_server_name(server_name@),
            Err(McpServerLifecycleServiceError::Domain(_)) => !valid_server_name(normalize_server_name(server_name@)),
            Err(_) => false,
        },
{
    match McpServerName::new(server_name) {
        Ok(n) => Ok(n),
        Err(e) => Err(McpServerLifecycleServiceError::Domain(e)),
    }
}

/// A server's tools may be listed only while it runs.
pub fn require_queryable(server: &McpServerRegistration) -> (r: Result<(), McpServerLifecycleServiceError>)
    ensures
        server@.lifecycle_state == McpServerLifecycleState::Running ==> r is Ok,
        server@.lifecycle_state != McpServerLifecycleState::Running ==> (r matches Err(
            McpServerLifecycleServiceError::Domain(ToolRegistryDomainError::ToolQueryRequiresRunning { server_id, state }),
        ) && server_id == server@.id && state@ == lifecycle_text(server@.lifecycle_state)),
{
    match server.ensure_can_query_tools() {
        Ok(()) => Ok(()),
        Err(e) => Err(McpServerLifecycleServiceError::Domain(e)),
    }
}

} // verus!
