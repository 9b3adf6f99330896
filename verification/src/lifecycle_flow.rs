//! A lifecycle operation on one server as a state machine: a start, a stop
//! or a health refresh. Each step takes the answer of the last port call
//! (registry or host) and says which call comes next, or how the operation
//! ends. A change whose persistence fails is undone on the host where it
//! owes a compensation.

use crate::error::ToolRegistryDomainError;
use crate::health::{HealthSnapshotView, McpServerHealthSnapshot, McpServerHealthStatus};
use crate::host::{host_error_text, McpServerHostError};
use crate::ids::McpServerId;
use crate::lifecycle::{
    apply_health_refresh, apply_lifecycle_action, complete_host_action, compensation_host_action,
    LifecycleChange, LifecycleCompensationAction, LifecycleHostAction, McpServerLifecycleServiceError,
};
use crate::registry::{registry_error_text, McpServerRegistryError};
use crate::server::{lifecycle_text, transition_allowed, McpServerLifecycleState, McpServerRegistration, RegistrationView};
use crate::text::{push_str, string_from_chars};
use vstd::prelude::*;

verus! {

/// Where a lifecycle operation stands.
#[derive(Debug)]
pub enum LifecycleFlow {
    /// Waiting for the registry's lookup of the server.
    Locating {
        /// The server operated on.
        server_id: McpServerId,
        /// The host action of a start or stop; `None` for a health refresh.
        action: Option<LifecycleHostAction>,
    },
    /// Waiting for the host to start or stop the server.
    Acting {
        /// The host action.
        host_action: LifecycleHostAction,
        /// The registration as the action leaves it.
        updated: McpServerRegistration,
    },
    /// Waiting for the host's health report.
    CheckingHealth {
        /// The registration as found.
        server: McpServerRegistration,
    },
    /// Waiting for the registry to store the change.
    Persisting {
        /// The change being stored.
        change: LifecycleChange,
    },
    /// Waiting for the host to undo a change the registry refused.
    Compensating {
        /// The refused change.
        change: LifecycleChange,
        /// The registry's refusal.
        repository_error: McpServerRegistryError,
    },
    /// The operation has ended.
    Done,
}

/// The answer of the last port call.
#[derive(Debug)]
pub enum LifecycleEvent {
    /// The registry lookup answered.
    ServerFound(Result<Option<McpServerRegistration>, McpServerRegistryError>),
    /// The host started (with its captured stderr) or stopped the server.
    HostActed(Result<Option<Vec<u8>>, McpServerHostError>),
    /// The host reported the server's health.
    HealthChecked(Result<McpServerHealthSnapshot, McpServerHostError>),
    /// The registry stored the change, or refused it.
    Persisted(Result<(), McpServerRegistryError>),
    /// The host undid the change, or failed to.
    Compensated(Result<(), McpServerHostError>),
}

/// The port call to make next, or the end of the operation.
#[derive(Debug)]
pub enum LifecycleStep {
    /// Look up the server in the registry.
    FindServer(McpServerId),
    /// Run the host action on the server as found.
    RunHost(LifecycleHostAction, McpServerRegistration),
    /// Ask the host for the server's health.
    CheckHealth(McpServerRegistration),
    /// Store the registration.
    UpdateServer(McpServerRegistration),
    /// Run the host action that undoes the change, on the changed server.
    Compensate(LifecycleHostAction, McpServerRegistration),
    /// The operation ends with this answer.
    Finish(Result<LifecycleChange, McpServerLifecycleServiceError>),
}

/// Whether `flow` waits for an event of the kind of `event`.
pub open spec fn lifecycle_expects(flow: LifecycleFlow, event: LifecycleEvent) -> bool {
    match flow {
        LifecycleFlow::Locating { .. } => event is ServerFound,
        LifecycleFlow::Acting { .. } => event is HostActed,
        LifecycleFlow::CheckingHealth { .. } => event is HealthChecked,
        LifecycleFlow::Persisting { .. } => event is Persisted,
        LifecycleFlow::Compensating { .. } => event is Compensated,
        LifecycleFlow::Done => false,
    }
}

/// The state a host action moves a server to.
pub open spec fn action_target(a: LifecycleHostAction) -> McpServerLifecycleState {
    match a {
        LifecycleHostAction::Start => McpServerLifecycleState::Running,
        LifecycleHostAction::Stop => McpServerLifecycleState::Stopped,
    }
}

/// The compensation a host action owes.
pub open spec fn owed_compensation(a: LifecycleHostAction) -> LifecycleCompensationAction {
    match a {
        LifecycleHostAction::Start => LifecycleCompensationAction::Stop,
        LifecycleHostAction::Stop => LifecycleCompensationAction::Start,
    }
}

/// The host action that carries out a compensation.
pub open spec fn compensation_action(c: LifecycleCompensationAction) -> LifecycleHostAction {
    match c {
        LifecycleCompensationAction::Start => LifecycleHostAction::Start,
        LifecycleCompensationAction::Stop => LifecycleHostAction::Stop,
    }
}

/// A registration as a start or stop at `now` leaves it, before the host
/// acts: the target state and an `unknown` health snapshot taken at `now`.
pub open spec fn acted_view(s: RegistrationView, a: LifecycleHostAction, now: i64) -> RegistrationView {
    RegistrationView {
        lifecycle_state: action_target(a),
        last_health: Some(HealthSnapshotView { status: McpServerHealthStatus::Unknown, checked_at: now, message: None }),
        updated_at: now,
        ..s
    }
}

/// Text of the error reported when the registry refused a change and the
/// host then failed to undo it.
pub open spec fn compensation_failure_text(repository_error: McpServerRegistryError, host_error: McpServerHostError) -> Seq<char> {
    "lifecycle persistence failed: "@ + registry_error_text(repository_error) + "; compensation failed: "@
        + host_error_text(host_error)
}

/// The error reported when the registry refused a change of `server_id`
/// and the host then failed to undo it: a communication failure naming
/// both causes.
pub fn compensation_failure_error(
    server_id: McpServerId,
    repository_error: &McpServerRegistryError,
    host_error: &McpServerHostError,
) -> (r: McpServerLifecycleServiceError)
    ensures
        r matches McpServerLifecycleServiceError::Host(McpServerHostError::CommunicationError { server_id: id, reason })
            && id == server_id && reason@ == compensation_failure_text(*repository_error, *host_error),
{
    let mut v: Vec<char> = Vec::new();
    push_str(&mut v, "lifecycle persistence failed: ");
    let repo = repository_error.message();
    push_str(&mut v, repo.as_str());
    push_str(&mut v, "; compensation failed: ");
    let host = host_error.message();
    push_str(&mut v, host.as_str());
    McpServerLifecycleServiceError::Host(
        McpServerHostError::CommunicationError { server_id, reason: string_from_chars(v.as_slice()) },
    )
}

/// What one step from `flow` on `event`, read at `now`, gives: the next
/// state and the next port call, or the end of the operation.
pub open spec fn lifecycle_step(flow: LifecycleFlow, event: LifecycleEvent, now: i64, r: (LifecycleFlow, LifecycleStep)) -> bool {
    match (flow, event) {
        (LifecycleFlow::Locating { .. }, LifecycleEvent::ServerFound(Err(e))) => r.0 == LifecycleFlow::Done
            && r.1 == LifecycleStep::Finish(Err(McpServerLifecycleServiceError::Repository(e))),
        (LifecycleFlow::Locating { server_id, .. }, LifecycleEvent::ServerFound(Ok(None))) => r.0
            == LifecycleFlow::Done && r.1 == LifecycleStep::Finish(
            Err(McpServerLifecycleServiceError::NotFound(server_id)),
        ),
        (LifecycleFlow::Locating { action: None, .. }, LifecycleEvent::ServerFound(Ok(Some(s)))) =>
            (r.0 matches LifecycleFlow::CheckingHealth { server } && server@ == s@) && (r.1 matches LifecycleStep::CheckHealth(
            x,
        ) && x@ == s@),
        (LifecycleFlow::Locating { action: Some(a), .. }, LifecycleEvent::ServerFound(Ok(Some(s)))) => if transition_allowed(
            s@.lifecycle_state,
            action_target(a),
        ) {
            (r.0 matches LifecycleFlow::Acting { host_action, updated } && host_action == a && updated@ == acted_view(
                s@,
                a,
                now,
            )) && (r.1 matches LifecycleStep::RunHost(b, x) && b == a && x@ == s@)
        } else {
            r.0 == LifecycleFlow::Done && (r.1 matches LifecycleStep::Finish(
                Err(
                    McpServerLifecycleServiceError::Domain(
                        ToolRegistryDomainError::InvalidLifecycleTransition { from, to },
                    ),
                ),
            ) && from@ == lifecycle_text(s@.lifecycle_state) && to@ == lifecycle_text(action_target(a)))
        },
        (LifecycleFlow::Acting { .. }, LifecycleEvent::HostActed(Err(e))) => r.0 == LifecycleFlow::Done
            && r.1 == LifecycleStep::Finish(Err(McpServerLifecycleServiceError::Host(e))),
        (LifecycleFlow::Acting { host_action, updated }, LifecycleEvent::HostActed(Ok(stderr))) =>
            (r.0 matches LifecycleFlow::Persisting { change } && change.updated_server@ == updated@
            && change.compensation == Some(owed_compensation(host_action)) && change.startup_stderr == stderr)
            && (r.1 matches LifecycleStep::UpdateServer(x) && x@ == updated@),
        (LifecycleFlow::CheckingHealth { .. }, LifecycleEvent::HealthChecked(Err(e))) => r.0
            == LifecycleFlow::Done && r.1 == LifecycleStep::Finish(Err(McpServerLifecycleServiceError::Host(e))),
        (LifecycleFlow::CheckingHealth { server }, LifecycleEvent::HealthChecked(Ok(h))) => {
            let refreshed = RegistrationView { last_health: Some(h@), updated_at: now, ..server@ };
            (r.0 matches LifecycleFlow::Persisting { change } && change.updated_server@ == refreshed
                && change.compensation is None && change.startup_stderr is None) && (r.1 matches LifecycleStep::UpdateServer(
                x,
            ) && x@ == refreshed)
        },
        (LifecycleFlow::Persisting { change }, LifecycleEvent::Persisted(Ok(()))) => r.0 == LifecycleFlow::Done
            && r.1 == LifecycleStep::Finish(Ok(change)),
        (LifecycleFlow::Persisting { change }, LifecycleEvent::Persisted(Err(e))) => match change.compensation {
            None => r.0 == LifecycleFlow::Done && r.1 == LifecycleStep::Finish(
                Err(McpServerLifecycleServiceError::Repository(e)),
            ),
            Some(k) => r.0 == (LifecycleFlow::Compensating { change, repository_error: e }) && (r.1 matches LifecycleStep::Compensate(
                b,
                x,
            ) && b == compensation_action(k) && x@ == change.updated_server@),
        },
        (LifecycleFlow::Compensating { repository_error, .. }, LifecycleEvent::Compensated(Ok(()))) => r.0
            == LifecycleFlow::Done && r.1 == LifecycleStep::Finish(
            Err(McpServerLifecycleServiceError::Repository(repository_error)),
        ),
        (LifecycleFlow::Compensating { change, repository_error }, LifecycleEvent::Compensated(Err(h))) =>
            r.0 == LifecycleFlow::Done && (r.1 matches LifecycleStep::Finish(
            Err(
                McpServerLifecycleServiceError::Host(McpServerHostError::CommunicationError { server_id, reason }),
            ),
        ) && server_id == change.updated_server@.id && reason@ == compensation_failure_text(repository_error, h)),
        _ => false,
    }
}

impl LifecycleFlow {
    /// The first step of starting (`Some(Start)`), stopping (`Some(Stop)`)
    /// or refreshing the health of (`None`) a server: look it up.
    pub fn begin(server_id: McpServerId, action: Option<LifecycleHostAction>) -> (r: (LifecycleFlow, LifecycleStep))
        ensures
            r.0 == (LifecycleFlow::Locating { server_id, action }),
            r.1 == LifecycleStep::FindServer(server_id),
    {
        (LifecycleFlow::Locating { server_id, action }, LifecycleStep::FindServer(server_id))
    }

    /// Whether the flow waits for an event of the kind of `event`.
    pub fn expects(&self, event: &LifecycleEvent) -> (r: bool)
        ensures
            r == lifecycle_expects(*self, *event),
    {
        match self {
            LifecycleFlow::Locating { .. } => matches!(event, LifecycleEvent::ServerFound(_)),
            LifecycleFlow::Acting { .. } => matches!(event, LifecycleEvent::HostActed(_)),
            LifecycleFlow::CheckingHealth { .. } => matches!(event, LifecycleEvent::HealthChecked(_)),
            LifecycleFlow::Persisting { .. } => matches!(event, LifecycleEvent::Persisted(_)),
            LifecycleFlow::Compensating { .. } => matches!(event, LifecycleEvent::Compensated(_)),
            LifecycleFlow::Done => false,
        }
    }

    /// Takes the answer of the last port call, read at `now`, and gives the
    /// next state and port call, or the end of the operation.
    ///
    /// A missing server ends the operation as not found. A start or stop
    /// the server's state does not allow ends as an invalid transition;
    /// otherwise the host acts on the server as found, and a host failure
    /// ends the operation. The changed registration is then stored; where
    /// the registry refuses it, the host undoes a start or stop, and the
    /// operation ends with the registry's error, or, if undoing failed too,
    /// with a communication failure naming both.
    pub fn step(self, event: LifecycleEvent, now: i64) -> (r: (LifecycleFlow, LifecycleStep))
        requires
            lifecycle_expects(self, event),
        ensures
            lifecycle_step(self, event, now, r),
    {
        match (self, event) {
            (LifecycleFlow::Locating { server_id: _, action: _ }, LifecycleEvent::ServerFound(Err(e))) => {
                (LifecycleFlow::Done, LifecycleStep::Finish(Err(McpServerLifecycleServiceError::Repository(e))))
            },
            (LifecycleFlow::Locating { server_id, action: _ }, LifecycleEvent::ServerFound(Ok(None))) => {
                (LifecycleFlow::Done, LifecycleStep::Finish(Err(McpServerLifecycleServiceError::NotFound(server_id))))
            },
            (LifecycleFlow::Locating { server_id: _, action: None }, LifecycleEvent::ServerFound(Ok(Some(s)))) => {
                let x = s.cloned();
                (LifecycleFlow::CheckingHealth { server: s }, LifecycleStep::CheckHealth(x))
            },
            (LifecycleFlow::Locating { server_id: _, action: Some(a) }, LifecycleEvent::ServerFound(Ok(Some(s)))) => {
                match apply_lifecycle_action(&s, a, now) {
                    Ok(updated) => (LifecycleFlow::Acting { host_action: a, updated }, LifecycleStep::RunHost(a, s)),
                    Err(e) => (LifecycleFlow::Done, LifecycleStep::Finish(Err(e))),
                }
            },
            (LifecycleFlow::Acting { host_action, updated }, LifecycleEvent::HostActed(outcome)) => {
                match complete_host_action(updated, host_action, outcome) {
                    Ok(change) => {
                        let x = change.updated_server.cloned();
                        (LifecycleFlow::Persisting { change }, LifecycleStep::UpdateServer(x))
                    },
                    Err(e) => (LifecycleFlow::Done, LifecycleStep::Finish(Err(e))),
                }
            },
            (LifecycleFlow::CheckingHealth { server: _ }, LifecycleEvent::HealthChecked(Err(e))) => {
                (LifecycleFlow::Done, LifecycleStep::Finish(Err(McpServerLifecycleServiceError::Host(e))))
            },
            (LifecycleFlow::CheckingHealth { server }, LifecycleEvent::HealthChecked(Ok(h))) => {
                let change = apply_health_refresh(&server, h, now);
                let x = change.updated_server.cloned();
                (LifecycleFlow::Persisting { change }, LifecycleStep::UpdateServer(x))
            },
            (LifecycleFlow::Persisting { change }, LifecycleEvent::Persisted(Ok(()))) => {
                (LifecycleFlow::Done, LifecycleStep::Finish(Ok(change)))
            },
            (LifecycleFlow::Persisting { change }, LifecycleEvent::Persisted(Err(e))) => {
                match compensation_host_action(change.compensation) {
                    None => (LifecycleFlow::Done, LifecycleStep::Finish(Err(McpServerLifecycleServiceError::Repository(e)))),
                    Some(b) => {
                        let x = change.updated_server.cloned();
                        (LifecycleFlow::Compensating { change, repository_error: e }, LifecycleStep::Compensate(b, x))
                    },
                }
            },
            (LifecycleFlow::Compensating { change: _, repository_error }, LifecycleEvent::Compensated(Ok(()))) => {
                (LifecycleFlow::Done, LifecycleStep::Finish(Err(McpServerLifecycleServiceError::Repository(repository_error))))
            },
            (LifecycleFlow::Compensating { change, repository_error }, LifecycleEvent::Compensated(Err(h))) => {
                let e = compensation_failure_error(change.updated_server.id(), &repository_error, &h);
                (LifecycleFlow::Done, LifecycleStep::Finish(Err(e)))
            },
            _ => {
                proof {
                    assert(false);
                }
                (LifecycleFlow::Done, LifecycleStep::FindServer(McpServerId(0)))
            },
        }
    }
}

/// The law of `McpServerLifecycleService::start`, which drives this flow: a
/// start whose change the registry refuses is undone: the host starts
/// the server as found, the registry is asked to store the running
/// registration, and on its refusal the host stops that registration; the
/// start then ends with the registry's error, or, if stopping failed too,
/// with a communication failure naming both. A start the server's state
/// does not allow ends at once, before any host or registry call.
pub proof fn lemma_start_compensates_refused_change(
    server_id: McpServerId,
    s: McpServerRegistration,
    stderr: Option<Vec<u8>>,
    refusal: McpServerRegistryError,
    undone: Result<(), McpServerHostError>,
    n0: i64,
    n1: i64,
    n2: i64,
    n3: i64,
    f1: LifecycleFlow,
    a1: LifecycleStep,
    f2: LifecycleFlow,
    a2: LifecycleStep,
    f3: LifecycleFlow,
    a3: LifecycleStep,
    f4: LifecycleFlow,
    a4: LifecycleStep,
)
    requires
        lifecycle_step(
            LifecycleFlow::Locating { server_id, action: Some(LifecycleHostAction::Start) },
            LifecycleEvent::ServerFound(Ok(Some(s))),
            n0,
            (f1, a1),
        ),
        transition_allowed(s@.lifecycle_state, McpServerLifecycleState::Running) ==> lifecycle_step(
            f1,
            LifecycleEvent::HostActed(Ok(stderr)),
            n1,
            (f2, a2),
        ) && lifecycle_step(f2, LifecycleEvent::Persisted(Err(refusal)), n2, (f3, a3)) && lifecycle_step(
            f3,
            LifecycleEvent::Compensated(undone),
            n3,
            (f4, a4),
        ),
    ensures
        !transition_allowed(s@.lifecycle_state, McpServerLifecycleState::Running) ==> f1 == LifecycleFlow::Done
            && a1 matches LifecycleStep::Finish(Err(McpServerLifecycleServiceError::Domain(_))),
        transition_allowed(s@.lifecycle_state, McpServerLifecycleState::Running) ==> {
            let running = acted_view(s@, LifecycleHostAction::Start, n0);
            &&& a1 matches LifecycleStep::RunHost(LifecycleHostAction::Start, x) && x@ == s@
            &&& a2 matches LifecycleStep::UpdateServer(u) && u@ == running
            &&& a3 matches LifecycleStep::Compensate(LifecycleHostAction::Stop, y) && y@ == running
            &&& f4 == LifecycleFlow::Done
            &&& undone is Ok ==> a4 == LifecycleStep::Finish(
                Err(McpServerLifecycleServiceError::Repository(refusal)),
            )
            &&& undone matches Err(h) ==> (a4 matches LifecycleStep::Finish(
                Err(McpServerLifecycleServiceError::Host(McpServerHostError::CommunicationError { server_id: id, reason })),
            ) && id == s@.id && reason@ == compensation_failure_text(refusal, h))
        },
{
}

} // verus!
