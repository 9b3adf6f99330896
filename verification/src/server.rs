//! MCP server lifecycle states and the registration aggregate root.

use crate::error::{ParseMcpServerLifecycleStateError, ToolRegistryDomainError};
use crate::health::{chars_eq_str, HealthSnapshotView, McpServerHealthSnapshot};
use crate::ids::{McpServerId, McpServerName};
use crate::text::{ascii_lower_spec, chars_of, string_from_chars, trim_spec};
use crate::transport::{McpTransport, TransportView};
use vstd::prelude::*;

verus! {

/// Lifecycle state of a registered MCP server.
#[derive(Debug, Clone, Copy, PartialEq, Eq, Hash)]
pub enum McpServerLifecycleState {
    /// Server is registered but not currently running.
    Registered,
    /// Server is currently running.
    Running,
    /// Server was previously started and then stopped.
    Stopped,
}

/// Canonical storage text of a lifecycle state.
pub open spec fn lifecycle_text(s: McpServerLifecycleState) -> Seq<char> {
    match s {
        McpServerLifecycleState::Registered => "registered"@,
        McpServerLifecycleState::Running => "running"@,
        McpServerLifecycleState::Stopped => "stopped"@,
    }
}

/// Allowed lifecycle transitions: a registered server may stay registered
/// or start; a running or stopped server may start or stop; nothing ever
/// returns to `registered`, and a server that never ran cannot be stopped.
pub open spec fn transition_allowed(from: McpServerLifecycleState, to: McpServerLifecycleState) -> bool {
    match from {
        McpServerLifecycleState::Registered => to == McpServerLifecycleState::Registered || to
            == McpServerLifecycleState::Running,
        _ => to == McpServerLifecycleState::Running || to == McpServerLifecycleState::Stopped,
    }
}

impl McpServerLifecycleState {
    /// Returns the canonical storage representation.
    pub fn as_str(self) -> (r: &'static str)
        ensures
            r@ == lifecycle_text(self),
    {
        match self {
            McpServerLifecycleState::Registered => "registered",
            McpServerLifecycleState::Running => "running",
            McpServerLifecycleState::Stopped => "stopped",
        }
    }

    /// Returns whether this state allows querying tools: only `running`.
    pub fn can_query_tools(self) -> (r: bool)
        ensures
            r == (self == McpServerLifecycleState::Running),
    {
        match self {
            McpServerLifecycleState::Running => true,
            _ => false,
        }
    }

    /// Returns whether transition to `target` is allowed.
    pub fn can_transition_to(self, target: Self) -> (r: bool)
        ensures
            r == transition_allowed(self, target),
    {
        match (self, target) {
            (McpServerLifecycleState::Registered, McpServerLifecycleState::Registered) => true,
            (McpServerLifecycleState::Registered, McpServerLifecycleState::Running) => true,
            (McpServerLifecycleState::Registered, McpServerLifecycleState::Stopped) => false,
            (_, McpServerLifecycleState::Registered) => false,
            (_, _) => true,
        }
    }

    /// Parses a stored state; surrounding whitespace and ASCII case are
    /// ignored.
    pub fn parse(value: &str) -> (r: Result<Self, ParseMcpServerLifecycleStateError>)
        ensures
            ({
                let n = ascii_lower_spec(trim_spec(value@));
                match r {
                    Ok(s) => lifecycle_text(s) == n,
                    Err(e) => e.0@ == value@ && forall|s: McpServerLifecycleState|
                        lifecycle_text(s) != n,
                }
            }),
    {
        let raw = chars_of(value);
        let trimmed = crate::text::trim_chars(raw.as_slice());
        let n = crate::text::ascii_lower_chars(trimmed.as_slice());
        if chars_eq_str(n.as_slice(), "registered") {
            Ok(McpServerLifecycleState::Registered)
        } else if chars_eq_str(n.as_slice(), "running") {
            Ok(McpServerLifecycleState::Running)
        } else if chars_eq_str(n.as_slice(), "stopped") {
            Ok(McpServerLifecycleState::Stopped)
        } else {
            proof {
                assert forall|s: McpServerLifecycleState| lifecycle_text(s) != n@ by {
                    match s {
                        McpServerLifecycleState::Registered => {},
                        McpServerLifecycleState::Running => {},
                        McpServerLifecycleState::Stopped => {},
                    }
                }
            }
            Err(ParseMcpServerLifecycleStateError(string_from_chars(raw.as_slice())))
        }
    }
}

/// Abstract content of a server registration.
pub struct RegistrationView {
    /// Server identifier.
    pub id: McpServerId,
    /// Server name.
    pub name: Seq<char>,
    /// Transport settings.
    pub transport: TransportView,
    /// Lifecycle state.
    pub lifecycle_state: McpServerLifecycleState,
    /// Latest health snapshot.
    pub last_health: Option<HealthSnapshotView>,
    /// Creation time, microseconds since the Unix epoch.
    pub created_at: i64,
    /// Latest update time, microseconds since the Unix epoch.
    pub updated_at: i64,
}

/// View of an optional health snapshot.
pub open spec fn opt_health_view(h: Option<McpServerHealthSnapshot>) -> Option<HealthSnapshotView> {
    match h {
        Some(s) => Some(s@),
        None => None,
    }
}

/// MCP server registration aggregate root.
#[derive(Debug, PartialEq, Eq)]
pub struct McpServerRegistration {
    id: McpServerId,
    name: McpServerName,
    transport: McpTransport,
    lifecycle_state: McpServerLifecycleState,
    last_health: Option<McpServerHealthSnapshot>,
    created_at: i64,
    updated_at: i64,
}

/// Parameter object for reconstructing persisted server state.
#[derive(Debug, PartialEq, Eq)]
pub struct PersistedMcpServerData {
    /// Persisted server identifier.
    pub id: McpServerId,
    /// Persisted server name.
    pub name: McpServerName,
    /// Persisted transport settings.
    pub transport: McpTransport,
    /// Persisted lifecycle state.
    pub lifecycle_state: McpServerLifecycleState,
    /// Persisted last health snapshot.
    pub last_health: Option<McpServerHealthSnapshot>,
    /// Persisted creation timestamp (microseconds since the epoch).
    pub created_at: i64,
    /// Persisted update timestamp (microseconds since the epoch).
    pub updated_at: i64,
}

impl View for McpServerRegistration {
    type V = RegistrationView;

    closed spec fn view(&self) -> RegistrationView {
        RegistrationView {
            id: self.id,
            name: self.name@,
            transport: self.transport@,
            lifecycle_state: self.lifecycle_state,
            last_health: opt_health_view(self.last_health),
            created_at: self.created_at,
            updated_at: self.updated_at,
        }
    }
}

impl McpServerRegistration {
    /// Creates a new registration in the `registered` state with an `unknown`
    /// health snapshot, both timestamps set to `now`, and a fresh random
    /// identifier.
    pub fn new(name: McpServerName, transport: McpTransport, now: i64) -> (r: Self)
        ensures
            crate::ids::is_v4_uuid(r@.id.0),
            r@.name == name@,
            r@.transport == transport@,
            r@.lifecycle_state == McpServerLifecycleState::Registered,
            r@.last_health == Some(
                HealthSnapshotView {
                    status: crate::health::McpServerHealthStatus::Unknown,
                    checked_at: now,
                    message: None,
                },
            ),
            r@.created_at == now,
            r@.updated_at == now,
    {
        McpServerRegistration {
            id: McpServerId::new(),
            name,
            transport,
            lifecycle_state: McpServerLifecycleState::Registered,
            last_health: Some(McpServerHealthSnapshot::unknown(now)),
            created_at: now,
            updated_at: now,
        }
    }

    /// Reconstructs a registration from persistence.
    pub fn from_persisted(data: PersistedMcpServerData) -> (r: Self)
        ensures
            r@ == (RegistrationView {
                id: data.id,
                name: data.name@,
                transport: data.transport@,
                lifecycle_state: data.lifecycle_state,
                last_health: opt_health_view(data.last_health),
                created_at: data.created_at,
                updated_at: data.updated_at,
            }),
    {
        McpServerRegistration {
            id: data.id,
            name: data.name,
            transport: data.transport,
            lifecycle_state: data.lifecycle_state,
            last_health: data.last_health,
            created_at: data.created_at,
            updated_at: data.updated_at,
        }
    }

    /// A deep copy of this registration.
    pub fn cloned(&self) -> (r: Self)
        ensures
            r@ == self@,
    {
        let last_health = match &self.last_health {
            Some(h) => Some(h.cloned()),
            None => None,
        };
        McpServerRegistration {
            id: self.id,
            name: self.name.cloned(),
            transport: self.transport.cloned(),
            lifecycle_state: self.lifecycle_state,
            last_health,
            created_at: self.created_at,
            updated_at: self.updated_at,
        }
    }

    /// Returns the server identifier.
    pub fn id(&self) -> (r: McpServerId)
        ensures
            r == self@.id,
    {
        self.id
    }

    /// Returns the validated server name.
    pub fn name(&self) -> (r: &McpServerName)
        ensures
            r@ == self@.name,
    {
        &self.name
    }

    /// Returns the transport settings.
    pub fn transport(&self) -> (r: &McpTransport)
        ensures
            r@ == self@.transport,
    {
        &self.transport
    }

    /// Returns the lifecycle state.
    pub fn lifecycle_state(&self) -> (r: McpServerLifecycleState)
        ensures
            r == self@.lifecycle_state,
    {
        self.lifecycle_state
    }

    /// Returns the latest health snapshot.
    pub fn last_health(&self) -> (r: Option<&McpServerHealthSnapshot>)
        ensures
            match r {
                Some(h) => self@.last_health == Some(h@),
                None => self@.last_health is None,
            },
    {
        match &self.last_health {
            Some(h) => Some(h),
            None => None,
        }
    }

    /// Returns the creation timestamp (microseconds since the epoch).
    pub fn created_at(&self) -> (r: i64)
        ensures
            r == self@.created_at,
    {
        self.created_at
    }

    /// Returns the latest update timestamp (microseconds since the epoch).
    pub fn updated_at(&self) -> (r: i64)
        ensures
            r == self@.updated_at,
    {
        self.updated_at
    }

    /// Moves to `target_state` when allowed; otherwise reports
    /// `InvalidLifecycleTransition` with both states' canonical texts and
    /// leaves the registration unchanged.
    pub fn transition_to(&mut self, target_state: McpServerLifecycleState) -> (r: Result<
        (),
        ToolRegistryDomainError,
    >)
        ensures
            transition_allowed(old(self)@.lifecycle_state, target_state) ==> r is Ok && final(self)@
                == (RegistrationView { lifecycle_state: target_state, ..old(self)@ }),
            !transition_allowed(old(self)@.lifecycle_state, target_state) ==> final(self)@ == old(
                self,
            )@ && match r {
                Err(ToolRegistryDomainError::InvalidLifecycleTransition { from, to }) => from@
                    == lifecycle_text(old(self)@.lifecycle_state) && to@ == lifecycle_text(
                    target_state,
                ),
                _ => false,
            },
    {
        if !self.lifecycle_state.can_transition_to(target_state) {
            let from = chars_of(self.lifecycle_state.as_str());
            let to = chars_of(target_state.as_str());
            return Err(
                ToolRegistryDomainError::InvalidLifecycleTransition {
                    from: string_from_chars(from.as_slice()),
                    to: string_from_chars(to.as_slice()),
                },
            );
        }
        self.lifecycle_state = target_state;
        Ok(())
    }

    /// Marks the server as started and stores the latest health snapshot.
    pub fn mark_started(&mut self, health_snapshot: McpServerHealthSnapshot, now: i64) -> (r:
        Result<(), ToolRegistryDomainError>)
        ensures
            transition_allowed(old(self)@.lifecycle_state, McpServerLifecycleState::Running) ==> r
                is Ok && final(self)@ == (RegistrationView {
                lifecycle_state: McpServerLifecycleState::Running,
                last_health: Some(health_snapshot@),
                updated_at: now,
                ..old(self)@
            }),
            !transition_allowed(old(self)@.lifecycle_state, McpServerLifecycleState::Running)
                ==> final(self)@ == old(self)@ && (r matches Err(
                ToolRegistryDomainError::InvalidLifecycleTransition { from, to },
            ) && from@ == lifecycle_text(old(self)@.lifecycle_state) && to@ == "running"@),
    {
        match self.transition_to(McpServerLifecycleState::Running) {
            Ok(()) => {},
            Err(e) => {
                return Err(e);
            },
        }
        self.last_health = Some(health_snapshot);
        self.updated_at = now;
        Ok(())
    }

    /// Marks the server as stopped and resets its health to `unknown` at
    /// `now`.
    pub fn mark_stopped(&mut self, now: i64) -> (r: Result<(), ToolRegistryDomainError>)
        ensures
            transition_allowed(old(self)@.lifecycle_state, McpServerLifecycleState::Stopped) ==> r
                is Ok && final(self)@ == (RegistrationView {
                lifecycle_state: McpServerLifecycleState::Stopped,
                last_health: Some(
                    HealthSnapshotView {
                        status: crate::health::McpServerHealthStatus::Unknown,
                        checked_at: now,
                        message: None,
                    },
                ),
                updated_at: now,
                ..old(self)@
            }),
            !transition_allowed(old(self)@.lifecycle_state, McpServerLifecycleState::Stopped)
                ==> final(self)@ == old(self)@ && (r matches Err(
                ToolRegistryDomainError::InvalidLifecycleTransition { from, to },
            ) && from@ == lifecycle_text(old(self)@.lifecycle_state) && to@ == "stopped"@),
    {
        match self.transition_to(McpServerLifecycleState::Stopped) {
            Ok(()) => {},
            Err(e) => {
                return Err(e);
            },
        }
        self.last_health = Some(McpServerHealthSnapshot::unknown(now));
        self.updated_at = now;
        Ok(())
    }

    /// Updates the latest health snapshot in place; the lifecycle state is
    /// unchanged.
    pub fn update_health(&mut self, health_snapshot: McpServerHealthSnapshot, now: i64)
        ensures
            final(self)@ == (RegistrationView {
                last_health: Some(health_snapshot@),
                updated_at: now,
                ..old(self)@
            }),
    {
        self.last_health = Some(health_snapshot);
        self.updated_at = now;
    }

    /// Validates that querying tools is allowed: only a running server
    /// answers tool queries.
    pub fn ensure_can_query_tools(&self) -> (r: Result<(), ToolRegistryDomainError>)
        ensures
            self@.lifecycle_state == McpServerLifecycleState::Running ==> r is Ok,
            self@.lifecycle_state != McpServerLifecycleState::Running ==> match r {
                Err(ToolRegistryDomainError::ToolQueryRequiresRunning { server_id, state }) =>
                    server_id == self@.id && state@ == lifecycle_text(self@.lifecycle_state),
                _ => false,
            },
    {
        if self.lifecycle_state.can_query_tools() {
            return Ok(());
        }
        let state = chars_of(self.lifecycle_state.as_str());
        Err(
            ToolRegistryDomainError::ToolQueryRequiresRunning {
                server_id: self.id,
                state: string_from_chars(state.as_slice()),
            },
        )
    }
}

} // verus!

verus! {

/// Once a server has left `registered`, no allowed transition leads back
/// to it.
pub proof fn lemma_never_back_to_registered(
    from: McpServerLifecycleState,
    to: McpServerLifecycleState,
)
    requires
        from != McpServerLifecycleState::Registered,
        transition_allowed(from, to),
    ensures
        to != McpServerLifecycleState::Registered,
{
}

/// Every state may move to `running`, so a server can always be
/// (re)started; only a server that has run can be stopped.
pub proof fn lemma_start_always_allowed(from: McpServerLifecycleState)
    ensures
        transition_allowed(from, McpServerLifecycleState::Running),
        transition_allowed(from, McpServerLifecycleState::Stopped) <==> from
            != McpServerLifecycleState::Registered,
{
}

/// The canonical text of a state is already normalized, and distinct states
/// have distinct texts: parsing what `as_str` writes gives the state back.
pub proof fn lemma_lifecycle_text_roundtrip(s: McpServerLifecycleState)
    ensures
        ascii_lower_spec(trim_spec(lifecycle_text(s))) == lifecycle_text(s),
        forall|t: McpServerLifecycleState| #[trigger] lifecycle_text(t) == lifecycle_text(s) ==> t
            == s,
{
    reveal_strlit("registered");
    reveal_strlit("running");
    reveal_strlit("stopped");
    let x = lifecycle_text(s);
    crate::text::lemma_plain_word_normalized(x);
    assert forall|t: McpServerLifecycleState| #[trigger] lifecycle_text(t) == lifecycle_text(
        s,
    ) implies t == s by {
        let y = lifecycle_text(t);
        if t != s {
            assert(y.len() != x.len() || y[1] != x[1] || y[0] != x[0]);
        }
    }
}

} // verus!
