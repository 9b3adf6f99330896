//! The routing of one tool call as a state machine: each step takes the
//! answer of the last port call and says which port call comes next, or
//! how the call ends. The caller performs the port calls.

use crate::catalog::{entry_views, CatalogEntry, ToolCatalogError};
use crate::discovery::{
    apply_governance_decision, build_tool_call_result, call_result_view, completed_audit_as,
    completed_call_audit, governed_as, located_as, precheck_entry, prechecked_as, rejection_audit,
    rejection_audit_as, require_running_server, resolve_entry, resolved_as, return_result_or_host_error,
    tool_call_stderr_capture, ToolDiscoveryRoutingServiceError,
};
use crate::governance::{ToolGovernanceDecision, ToolGovernanceError, ToolPolicyError};
use crate::host::{McpServerHostError, ToolCallHostResult};
use crate::ids::McpServerId;
use crate::log_capture::{object_path_spec, LogCaptureContext, LogEntryKind, LogEntryMetadata};
use crate::registry::McpServerRegistryError;
use crate::routing::{ToolCallAuditRecord, ToolCallRequest, ToolCallResult};
use crate::server::McpServerRegistration;
use crate::validation::validation_failure;
use vstd::prelude::*;

verus! {

/// Where a routed call stands.
#[derive(Debug)]
pub enum CallFlow {
    /// Waiting for the catalog entries under the requested tool name.
    Resolving,
    /// Waiting for governance's pre-call answer on the resolved entry.
    Governing {
        /// The resolved entry.
        entry: CatalogEntry,
    },
    /// Waiting for the registry's lookup of the entry's server.
    LocatingServer {
        /// The resolved entry.
        entry: CatalogEntry,
    },
    /// Waiting for the host's answer.
    Executing {
        /// The resolved entry.
        entry: CatalogEntry,
    },
    /// Waiting to learn whether the call's stderr was stored.
    Capturing {
        /// The resolved entry.
        entry: CatalogEntry,
        /// The call's result.
        result: ToolCallResult,
        /// The host's error, if the call failed.
        host_error: Option<McpServerHostError>,
        /// Where the stderr is being stored.
        path: String,
    },
    /// Waiting for the audit record of the executed call to be written.
    Auditing {
        /// The resolved entry.
        entry: CatalogEntry,
        /// The call's result.
        result: ToolCallResult,
        /// The host's error, if the call failed.
        host_error: Option<McpServerHostError>,
    },
    /// Waiting for governance's post-call observation.
    Observing {
        /// The call's result.
        result: ToolCallResult,
        /// The host's error, if the call failed.
        host_error: Option<McpServerHostError>,
    },
    /// Waiting for the audit record of a rejected call to be written.
    Rejecting {
        /// Why the call was rejected.
        error: ToolDiscoveryRoutingServiceError,
    },
    /// The call has ended.
    Done,
}

/// The answer of the last port call.
#[derive(Debug)]
pub enum CallEvent {
    /// The catalog lookup by tool name answered.
    EntriesFound(Result<Vec<CatalogEntry>, ToolCatalogError>),
    /// Governance answered before the call.
    GovernanceAnswered(Result<ToolGovernanceDecision, ToolGovernanceError>),
    /// The registry lookup of the server answered.
    ServerFound(Result<Option<McpServerRegistration>, McpServerRegistryError>),
    /// The host answered the call.
    HostAnswered(Result<ToolCallHostResult, McpServerHostError>),
    /// The log store answered whether the stderr was stored.
    StderrStored(bool),
    /// The audit write finished (its failure is not reported).
    AuditRecorded,
    /// The post-call observation finished (its failure is not reported).
    Observed,
}

/// The port call to make next, or the end of the call.
#[derive(Debug)]
pub enum CallAction {
    /// Look up the catalog entries under the requested tool name.
    FindEntries,
    /// Ask governance whether the call on this entry may proceed.
    EnforceBeforeCall(CatalogEntry),
    /// Look up the server in the registry.
    FindServer(McpServerId),
    /// Invoke the requested tool on this server.
    CallHost(McpServerRegistration),
    /// Store captured stderr under this metadata.
    StoreStderr(LogEntryMetadata, Vec<u8>),
    /// Write this audit record.
    RecordAudit(ToolCallAuditRecord),
    /// Let governance observe the completed call on this entry.
    ObserveAfterCall(CatalogEntry, ToolCallResult),
    /// The call ends with this answer.
    Finish(Result<ToolCallResult, ToolDiscoveryRoutingServiceError>),
}

/// Whether `flow` waits for an event of the kind of `event`.
pub open spec fn expects_spec(flow: CallFlow, event: CallEvent) -> bool {
    match flow {
        CallFlow::Resolving => event is EntriesFound,
        CallFlow::Governing { .. } => event is GovernanceAnswered,
        CallFlow::LocatingServer { .. } => event is ServerFound,
        CallFlow::Executing { .. } => event is HostAnswered,
        CallFlow::Capturing { .. } => event is StderrStored,
        CallFlow::Auditing { .. } => event is AuditRecorded,
        CallFlow::Observing { .. } => event is Observed,
        CallFlow::Rejecting { .. } => event is AuditRecorded,
        CallFlow::Done => false,
    }
}

/// Whether the step from `flow` on `event` captures stderr: the host
/// answered an executing call with non-empty stderr.
pub open spec fn captures_stderr(flow: CallFlow, event: CallEvent) -> bool {
    &&& flow is Executing
    &&& event matches CallEvent::HostAnswered(Ok(h))
    &&& h.stderr_output matches Some(b)
    &&& b@.len() > 0
}

/// The pre-call checks hold of the entry a flow carries toward execution:
/// the tool is available and the parameters satisfy its input schema.
pub open spec fn flow_inv(request: crate::routing::RequestView, flow: CallFlow) -> bool {
    match flow {
        CallFlow::Governing { entry } => entry@.available && validation_failure(entry@.tool.input_schema, request.parameters) is None,
        CallFlow::LocatingServer { entry } => entry@.available && validation_failure(entry@.tool.input_schema, request.parameters) is None,
        CallFlow::Executing { entry } => entry@.available && validation_failure(entry@.tool.input_schema, request.parameters) is None,
        _ => true,
    }
}

/// `next` and `action` are what rejecting the call with `error`, with the
/// entry's server known, leads to: the rejection is audited, then the
/// call ends with the error.
pub open spec fn rejects_with(
    request: crate::routing::RequestView,
    server_id: McpServerId,
    error: ToolDiscoveryRoutingServiceError,
    now: i64,
    next: CallFlow,
    action: CallAction,
) -> bool {
    &&& next == CallFlow::Rejecting { error }
    &&& action matches CallAction::RecordAudit(a) && rejection_audit_as(request, server_id, error, now, a@)
}

/// What one step from `flow` on `event` gives, with the clock reading
/// `now` and the retention period and tenant of stderr capture: the next
/// state and the next port call, or the end of the call.
pub open spec fn call_step(
    flow: CallFlow,
    request: crate::routing::RequestView,
    event: CallEvent,
    now: i64,
    retention_period: i64,
    tenant: crate::ids::TenantId,
    r: (CallFlow, CallAction),
) -> bool {
    match (flow, event) {
        (CallFlow::Resolving, CallEvent::EntriesFound(Err(e))) => r.0 == CallFlow::Done && r.1 == CallAction::Finish(
            Err(ToolDiscoveryRoutingServiceError::Catalog(e)),
        ),
        (CallFlow::Resolving, CallEvent::EntriesFound(Ok(es))) => exists|res: Result<CatalogEntry, ToolDiscoveryRoutingServiceError>|
            #![trigger resolved_as(request.tool_name, entry_views(es@), res)]
            resolved_as(request.tool_name, entry_views(es@), res) && match res {
                Err(err) => r.0 == CallFlow::Done && r.1 == CallAction::Finish(Err(err)),
                Ok(e) => exists|p: Result<(), ToolDiscoveryRoutingServiceError>|
                    #![trigger prechecked_as(e@, request, p)]
                    prechecked_as(e@, request, p) && match p {
                        Err(err) => rejects_with(request, e@.server_id, err, now, r.0, r.1),
                        Ok(()) => (r.0 matches CallFlow::Governing { entry } && entry@ == e@) && (r.1 matches CallAction::EnforceBeforeCall(x) && x@ == e@),
                    },
            },
        (CallFlow::Governing { entry }, CallEvent::GovernanceAnswered(d)) => exists|g: Result<(), ToolDiscoveryRoutingServiceError>|
            #![trigger governed_as(request, d, g)]
            governed_as(request, d, g) && match g {
                Err(err) => rejects_with(request, entry@.server_id, err, now, r.0, r.1),
                Ok(()) => (r.0 matches CallFlow::LocatingServer { entry: x } && x@ == entry@) && r.1 == CallAction::FindServer(entry@.server_id),
            },
        (CallFlow::LocatingServer { entry }, CallEvent::ServerFound(Err(e))) =>
            rejects_with(request, entry@.server_id, ToolDiscoveryRoutingServiceError::Registry(e), now, r.0, r.1),
        (CallFlow::LocatingServer { entry }, CallEvent::ServerFound(Ok(found))) => exists|l: Result<McpServerRegistration, ToolDiscoveryRoutingServiceError>|
            #![trigger located_as(entry@.server_id, found, l)]
            located_as(entry@.server_id, found, l) && match l {
                Err(err) => rejects_with(request, entry@.server_id, err, now, r.0, r.1),
                Ok(s) => (r.0 matches CallFlow::Executing { entry: x } && x@ == entry@) && (r.1 matches CallAction::CallHost(t) && t@ == s@),
            },
        (CallFlow::Executing { entry }, CallEvent::HostAnswered(h)) => {
            let res = call_result_view(request, h, entry@.server_id, now);
            let err = match h {
                Ok(_) => None,
                Err(e) => Some(e),
            };
            let stderr = match h {
                Ok(hr) => hr.stderr_output,
                Err(_) => None,
            };
            if stderr matches Some(b) && b@.len() > 0 {
                r.0 matches CallFlow::Capturing { entry: x, result, host_error, path } && x@ == entry@ && result@ == res
                    && host_error == err && (r.1 matches CallAction::StoreStderr(m, c) && c@ == stderr->0@
                    && path@ == m@.object_path && m@.server_id == entry@.server_id
                    && m@.kind == (LogEntryKind::ToolCall { call_id: request.call_id })
                    && m@.byte_count == c@.len()
                    && m@.object_path == object_path_spec(tenant, entry@.server_id, m@.kind, m@.id)
                    && m@.captured_at == now && m@.expires_at == now + retention_period)
            } else {
                (r.0 matches CallFlow::Auditing { entry: x, result, host_error } && x@ == entry@ && result@ == res
                    && host_error == err) && (r.1 matches CallAction::RecordAudit(a) && completed_audit_as(request, res, None, a@))
            }
        },
        (CallFlow::Capturing { entry, result, host_error, path }, CallEvent::StderrStored(stored)) =>
            (r.0 matches CallFlow::Auditing { entry: x, result: y, host_error: z } && x@ == entry@ && y@ == result@ && z == host_error)
            && (r.1 matches CallAction::RecordAudit(a) && completed_audit_as(
                request,
                result@,
                if stored { Some(path@) } else { None },
                a@,
            )),
        (CallFlow::Auditing { entry, result, host_error }, CallEvent::AuditRecorded) =>
            (r.0 matches CallFlow::Observing { result: y, host_error: z } && y@ == result@ && z == host_error)
            && (r.1 matches CallAction::ObserveAfterCall(x, y) && x@ == entry@ && y@ == result@),
        (CallFlow::Observing { result, host_error }, CallEvent::Observed) => r.0 == CallFlow::Done && match host_error {
            Some(e) => r.1 == CallAction::Finish(Err(ToolDiscoveryRoutingServiceError::Host(e))),
            None => r.1 matches CallAction::Finish(Ok(x)) && x@ == result@,
        },
        (CallFlow::Rejecting { error }, CallEvent::AuditRecorded) => r.0 == CallFlow::Done && r.1 == CallAction::Finish(Err(error)),
        _ => false,
    }
}

impl CallFlow {
    /// The flow of a call that has not started: its first step looks up the
    /// catalog entries.
    pub fn start() -> (r: (CallFlow, CallAction))
        ensures
            r.0 == CallFlow::Resolving,
            r.1 is FindEntries,
    {
        (CallFlow::Resolving, CallAction::FindEntries)
    }

    /// Whether the flow waits for an event of the kind of `event`.
    pub fn expects(&self, event: &CallEvent) -> (r: bool)
        ensures
            r == expects_spec(*self, *event),
    {
        match self {
            CallFlow::Resolving => matches!(event, CallEvent::EntriesFound(_)),
            CallFlow::Governing { .. } => matches!(event, CallEvent::GovernanceAnswered(_)),
            CallFlow::LocatingServer { .. } => matches!(event, CallEvent::ServerFound(_)),
            CallFlow::Executing { .. } => matches!(event, CallEvent::HostAnswered(_)),
            CallFlow::Capturing { .. } => matches!(event, CallEvent::StderrStored(_)),
            CallFlow::Auditing { .. } => matches!(event, CallEvent::AuditRecorded),
            CallFlow::Observing { .. } => matches!(event, CallEvent::Observed),
            CallFlow::Rejecting { .. } => matches!(event, CallEvent::AuditRecorded),
            CallFlow::Done => false,
        }
    }

    /// Takes the answer of the last port call and gives the next state and
    /// the next port call, or the end of the call. `ctx` carries the clock
    /// reading of this step and the retention policy and tenant for stderr
    /// capture; the expiry of captured stderr must be a representable time.
    ///
    /// The call is resolved by name (none or several entries end it), the
    /// entry is checked (a failure is audited as a rejection), governance
    /// is asked (a denial or an evaluation error is audited as a rejection),
    /// the entry's server must exist and run (else the call is audited as a
    /// rejection), the host is called, non-empty stderr is stored, the
    /// executed call is audited with the stored stderr's path, governance
    /// observes it, and the call ends with the host's error or the result.
    pub fn step(self, request: &ToolCallRequest, event: CallEvent, ctx: &LogCaptureContext<'_>) -> (r: (CallFlow, CallAction))
        requires
            expects_spec(self, event),
            captures_stderr(self, event) ==> i64::MIN <= ctx.now + ctx.retention.retention_period <= i64::MAX,
        ensures
            flow_inv(request@, self) ==> flow_inv(request@, r.0),
            call_step(self, request@, event, ctx.now, ctx.retention.retention_period, ctx.tenant_id, r),
    {
        match (self, event) {
            (CallFlow::Resolving, CallEvent::EntriesFound(Err(e))) => {
                (CallFlow::Done, CallAction::Finish(Err(ToolDiscoveryRoutingServiceError::Catalog(e))))
            },
            (CallFlow::Resolving, CallEvent::EntriesFound(Ok(es))) => {
                let ghost ev = entry_views(es@);
                let res = resolve_entry(request.tool_name(), es);
                match res {
                    Err(err) => {
                        let ghost g = Err::<CatalogEntry, ToolDiscoveryRoutingServiceError>(err);
                        assert(resolved_as(request@.tool_name, ev, g));
                        (CallFlow::Done, CallAction::Finish(Err(err)))
                    },
                    Ok(e) => {
                        let ghost ge = e;
                        let p = precheck_entry(&e, request);
                        let ghost gp = p;
                        match p {
                            Err(err) => {
                                let audit = rejection_audit(request, e.server_id(), &err, ctx.now);
                                proof {
                                    assert(resolved_as(request@.tool_name, ev, Ok::<CatalogEntry, ToolDiscoveryRoutingServiceError>(ge)));
                                    assert(prechecked_as(ge@, request@, gp));
                                }
                                (CallFlow::Rejecting { error: err }, CallAction::RecordAudit(audit))
                            },
                            Ok(()) => {
                                let x = e.cloned();
                                proof {
                                    assert(resolved_as(request@.tool_name, ev, Ok::<CatalogEntry, ToolDiscoveryRoutingServiceError>(ge)));
                                    assert(prechecked_as(ge@, request@, gp));
                                }
                                (CallFlow::Governing { entry: e }, CallAction::EnforceBeforeCall(x))
                            },
                        }
                    },
                }
            },
            (CallFlow::Governing { entry }, CallEvent::GovernanceAnswered(d)) => {
                let ghost gd = d;
                let g = apply_governance_decision(request, d);
                let ghost gg = g;
                proof {
                    assert(governed_as(request@, gd, gg));
                }
                match g {
                    Err(err) => {
                        let audit = rejection_audit(request, entry.server_id(), &err, ctx.now);
                        (CallFlow::Rejecting { error: err }, CallAction::RecordAudit(audit))
                    },
                    Ok(()) => {
                        let id = entry.server_id();
                        (CallFlow::LocatingServer { entry }, CallAction::FindServer(id))
                    },
                }
            },
            (CallFlow::LocatingServer { entry }, CallEvent::ServerFound(Err(e))) => {
                let err = ToolDiscoveryRoutingServiceError::Registry(e);
                let audit = rejection_audit(request, entry.server_id(), &err, ctx.now);
                (CallFlow::Rejecting { error: err }, CallAction::RecordAudit(audit))
            },
            (CallFlow::LocatingServer { entry }, CallEvent::ServerFound(Ok(found))) => {
                let ghost gf = found;
                let l = require_running_server(entry.server_id(), found);
                let ghost gl = l;
                proof {
                    assert(located_as(entry@.server_id, gf, gl));
                }
                match l {
                    Err(err) => {
                        let audit = rejection_audit(request, entry.server_id(), &err, ctx.now);
                        (CallFlow::Rejecting { error: err }, CallAction::RecordAudit(audit))
                    },
                    Ok(s) => (CallFlow::Executing { entry }, CallAction::CallHost(s)),
                }
            },
            (CallFlow::Executing { entry }, CallEvent::HostAnswered(h)) => {
                let (result, stderr, host_error) = build_tool_call_result(request, h, entry.server_id(), ctx.now);
                match tool_call_stderr_capture(&result, stderr, ctx) {
                    Some((m, c)) => {
                        let path = m.object_path().to_owned();
                        (CallFlow::Capturing { entry, result, host_error, path }, CallAction::StoreStderr(m, c))
                    },
                    None => {
                        let audit = completed_call_audit(request, &result, None);
                        (CallFlow::Auditing { entry, result, host_error }, CallAction::RecordAudit(audit))
                    },
                }
            },
            (CallFlow::Capturing { entry, result, host_error, path }, CallEvent::StderrStored(stored)) => {
                let audit = if stored {
                    completed_call_audit(request, &result, Some(path.as_str()))
                } else {
                    completed_call_audit(request, &result, None)
                };
                (CallFlow::Auditing { entry, result, host_error }, CallAction::RecordAudit(audit))
            },
            (CallFlow::Auditing { entry, result, host_error }, CallEvent::AuditRecorded) => {
                let r = result.cloned();
                (CallFlow::Observing { result, host_error }, CallAction::ObserveAfterCall(entry, r))
            },
            (CallFlow::Observing { result, host_error }, CallEvent::Observed) => {
                (CallFlow::Done, CallAction::Finish(return_result_or_host_error(result, host_error)))
            },
            (CallFlow::Rejecting { error }, CallEvent::AuditRecorded) => {
                (CallFlow::Done, CallAction::Finish(Err(error)))
            },
            _ => {
                proof {
                    assert(false);
                }
                (CallFlow::Done, CallAction::FindEntries)
            },
        }
    }
}

} // verus!

verus! {

/// Whether `flows`, `events` and `actions` are a run of steps of the call
/// `request`: each event is one that its state expects, and each step is
/// what [`CallFlow::step`] gives, at the clock readings `nows` with the
/// capture settings `periods` and `tenants`.
pub open spec fn call_run(
    request: crate::routing::RequestView,
    flows: Seq<CallFlow>,
    events: Seq<CallEvent>,
    actions: Seq<CallAction>,
    nows: Seq<i64>,
    periods: Seq<i64>,
    tenants: Seq<crate::ids::TenantId>,
) -> bool {
    &&& flows.len() == events.len() + 1
    &&& actions.len() == events.len()
    &&& nows.len() == events.len() && periods.len() == events.len() && tenants.len() == events.len()
    &&& forall|i: int|
        0 <= i < events.len() ==> expects_spec(flows[i], events[i]) && call_step(
            flows[i],
            request,
            #[trigger] events[i],
            nows[i],
            periods[i],
            tenants[i],
            (flows[i + 1], actions[i]),
        )
}

/// Of `ToolDiscoveryRoutingService::call_tool`: a call whose governance
/// evaluation fails never reaches the host. Its only remaining port call is
/// the audit of the rejection, after which the call ends with
/// `Policy(EvaluationFailed)` carrying the failure's text, distinct from a
/// denial.
pub proof fn lemma_call_tool_policy_failure_skips_host(
    request: crate::routing::RequestView,
    flows: Seq<CallFlow>,
    events: Seq<CallEvent>,
    actions: Seq<CallAction>,
    nows: Seq<i64>,
    periods: Seq<i64>,
    tenants: Seq<crate::ids::TenantId>,
    message: String,
)
    requires
        call_run(request, flows, events, actions, nows, periods, tenants),
        events.len() > 0,
        flows[0] is Governing,
        events[0] == CallEvent::GovernanceAnswered(Err(ToolGovernanceError::EvaluationFailed { message })),
    ensures
        events.len() <= 2,
        actions[0] is RecordAudit,
        forall|i: int| 0 <= i < actions.len() ==> !(#[trigger] actions[i] is CallHost),
        events.len() == 2 ==> flows[2] == CallFlow::Done,
        events.len() == 2 ==> (actions[1] matches CallAction::Finish(
            Err(ToolDiscoveryRoutingServiceError::Policy(ToolPolicyError::EvaluationFailed(cause))),
        ) && cause@ == message@),
{
    assert(call_step(flows[0], request, events[0], nows[0], periods[0], tenants[0], (flows[1], actions[0])));
    assert(flows[1] matches CallFlow::Rejecting { error: ToolDiscoveryRoutingServiceError::Policy(
        ToolPolicyError::EvaluationFailed(cause),
    ) } && cause@ == message@);
    if events.len() > 1 {
        assert(expects_spec(flows[1], events[1]) && call_step(
            flows[1],
            request,
            events[1],
            nows[1],
            periods[1],
            tenants[1],
            (flows[2], actions[1]),
        ));
        if events.len() > 2 {
            assert(expects_spec(flows[2], events[2]));
        }
    }
}

/// The law of `ToolDiscoveryRoutingService::call_tool`, which drives this
/// flow: once the host has answered a call, the call runs to its end the
/// same way whatever the stderr store, the audit write and the post-call
/// observation return: its audit is written once, governance observes the
/// call once and after the audit, and the call ends with the result of
/// the host's answer (timed at the step that took it), or with the host's
/// error.
pub proof fn lemma_call_tool_ends_with_host_answer(
    request: crate::routing::RequestView,
    flows: Seq<CallFlow>,
    events: Seq<CallEvent>,
    actions: Seq<CallAction>,
    nows: Seq<i64>,
    periods: Seq<i64>,
    tenants: Seq<crate::ids::TenantId>,
)
    requires
        call_run(request, flows, events, actions, nows, periods, tenants),
        events.len() > 0,
        flows[0] is Executing,
        events[0] is HostAnswered,
        flows.last() == CallFlow::Done,
    ensures
        ({
            let h = events[0]->HostAnswered_0;
            let entry = flows[0]->Executing_entry;
            let res = call_result_view(request, h, entry@.server_id, nows[0]);
            &&& match h {
                Ok(_) => actions.last() matches CallAction::Finish(Ok(x)) && x@ == res,
                Err(e) => actions.last() == CallAction::Finish(
                    Err::<ToolCallResult, ToolDiscoveryRoutingServiceError>(ToolDiscoveryRoutingServiceError::Host(e)),
                ),
            }
            &&& exists|a: int, o: int|
                0 <= a < o < actions.len() && (#[trigger] actions[a] matches CallAction::RecordAudit(rec)
                    && completed_audit_as(request, res, rec@.stderr_log_path, rec@)) && (#[trigger] actions[o] matches CallAction::ObserveAfterCall(
                    x,
                    y,
                ) && x@ == entry@ && y@ == res) && (forall|k: int|
                    0 <= k < actions.len() && k != a ==> !(#[trigger] actions[k] is RecordAudit)) && (forall|k: int|
                    0 <= k < actions.len() && k != o ==> !(#[trigger] actions[k] is ObserveAfterCall))
        }),
{
    let n = events.len();
    assert(expects_spec(flows[0], events[0]));
    assert(call_step(flows[0], request, events[0], nows[0], periods[0], tenants[0], (flows[1], actions[0])));
    // After the host answers, the flow captures stderr or goes to the audit.
    if flows[1] is Capturing {
        assert(n > 1);
        assert(expects_spec(flows[1], events[1]));
        assert(call_step(flows[1], request, events[1], nows[1], periods[1], tenants[1], (flows[2], actions[1])));
        assert(n > 2);
        assert(expects_spec(flows[2], events[2]));
        assert(call_step(flows[2], request, events[2], nows[2], periods[2], tenants[2], (flows[3], actions[2])));
        assert(n > 3);
        assert(expects_spec(flows[3], events[3]));
        assert(call_step(flows[3], request, events[3], nows[3], periods[3], tenants[3], (flows[4], actions[3])));
        if n > 4 {
            assert(expects_spec(flows[4], events[4]));
        }
        assert(n == 4);
        assert(actions[1] is RecordAudit && actions[2] is ObserveAfterCall);
        assert forall|k: int| 0 <= k < actions.len() && k != 1 implies !(#[trigger] actions[k] is RecordAudit) by {}
        assert forall|k: int| 0 <= k < actions.len() && k != 2 implies !(#[trigger] actions[k] is ObserveAfterCall) by {}
    } else {
        assert(n > 1);
        assert(expects_spec(flows[1], events[1]));
        assert(call_step(flows[1], request, events[1], nows[1], periods[1], tenants[1], (flows[2], actions[1])));
        assert(n > 2);
        assert(expects_spec(flows[2], events[2]));
        assert(call_step(flows[2], request, events[2], nows[2], periods[2], tenants[2], (flows[3], actions[2])));
        if n > 3 {
            assert(expects_spec(flows[3], events[3]));
        }
        assert(n == 3);
        assert(actions[0] is RecordAudit && actions[1] is ObserveAfterCall);
        assert forall|k: int| 0 <= k < actions.len() && k != 0 implies !(#[trigger] actions[k] is RecordAudit) by {}
        assert forall|k: int| 0 <= k < actions.len() && k != 1 implies !(#[trigger] actions[k] is ObserveAfterCall) by {}
    }
}

} // verus!
