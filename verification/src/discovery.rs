//! Decisions of tool discovery and call routing: which catalog entry a call
//! resolves to, whether it may proceed, what result and audit trail a call
//! leaves, and which catalog entries a discovery produces.

use crate::catalog::{catalog_error_text, entry_views, CatalogEntry, EntryView, ToolCatalogError};
use crate::error::{domain_error_text, ToolRegistryDomainError};
use crate::governance::{ToolGovernanceDecision, ToolGovernanceError, ToolPolicyError};
use crate::host::{host_error_text, McpServerHostError, ToolCallHostResult};
use crate::ids::{uuid_text_spec, McpServerId};
use crate::log_capture::{object_path_spec, LogCaptureContext, LogEntryKind, LogEntryMetadata};
use crate::log_store::{log_store_error_text, ToolLogStoreError};
use crate::registry::{registry_error_text, McpServerRegistryError};
use crate::routing::{
    elapsed_micros, elapsed_spec, AuditView, OutcomeView, RequestView, ResultView, ToolCallAuditRecord,
    ToolCallOutcome, ToolCallRequest, ToolCallResult, ToolCallTiming,
};
use crate::server::{lifecycle_text, McpServerLifecycleState, McpServerRegistration};
use crate::text::{push_str, push_uuid, string_from_chars};
use crate::tool::{McpToolDefinition, ToolView};
use crate::validation::{validate_parameters, validation_failure};
use vstd::prelude::*;

verus! {

/// Errors of tool discovery and call routing.
#[derive(Debug, PartialEq, Eq)]
pub enum ToolDiscoveryRoutingServiceError {
    /// Domain validation failed.
    Domain(ToolRegistryDomainError),
    /// Catalog persistence failed.
    Catalog(ToolCatalogError),
    /// Registry operation failed.
    Registry(McpServerRegistryError),
    /// Host operation failed.
    Host(McpServerHostError),
    /// Tool governance returned an error.
    Governance(ToolGovernanceError),
    /// The policy engine failed to evaluate a call (distinct from a denial).
    Policy(ToolPolicyError),
    /// Log store operation failed.
    LogStore(ToolLogStoreError),
    /// No server exists with the given identifier.
    NotFound(McpServerId),
}

/// The human-readable text of a service error: that of the wrapped error,
/// or the not-found text.
pub open spec fn service_error_text(e: ToolDiscoveryRoutingServiceError) -> Seq<char> {
    match e {
        ToolDiscoveryRoutingServiceError::Domain(d) => domain_error_text(d),
        ToolDiscoveryRoutingServiceError::Catalog(c) => catalog_error_text(c),
        ToolDiscoveryRoutingServiceError::Registry(r) => registry_error_text(r),
        ToolDiscoveryRoutingServiceError::Host(h) => host_error_text(h),
        ToolDiscoveryRoutingServiceError::Governance(ToolGovernanceError::EvaluationFailed { message }) =>
            "tool governance failed: "@ + message@,
        ToolDiscoveryRoutingServiceError::Policy(ToolPolicyError::EvaluationFailed(cause)) =>
            "policy evaluation failed: "@ + cause@,
        ToolDiscoveryRoutingServiceError::LogStore(l) => log_store_error_text(l),
        ToolDiscoveryRoutingServiceError::NotFound(id) => "MCP server "@ + uuid_text_spec(id.0)
            + " not found"@,
    }
}

impl ToolDiscoveryRoutingServiceError {
    /// The human-readable text of this error.
    pub fn message(&self) -> (r: String)
        ensures
            r@ == service_error_text(*self),
    {
        match self {
            ToolDiscoveryRoutingServiceError::Domain(d) => d.message(),
            ToolDiscoveryRoutingServiceError::Catalog(c) => c.message(),
            ToolDiscoveryRoutingServiceError::Registry(r) => r.message(),
            ToolDiscoveryRoutingServiceError::Host(h) => h.message(),
            ToolDiscoveryRoutingServiceError::Governance(g) => g.message(),
            ToolDiscoveryRoutingServiceError::Policy(p) => p.message(),
            ToolDiscoveryRoutingServiceError::LogStore(l) => l.message(),
            ToolDiscoveryRoutingServiceError::NotFound(id) => {
                let mut v: Vec<char> = Vec::new();
                push_str(&mut v, "MCP server ");
                push_uuid(&mut v, id.0);
                push_str(&mut v, " not found");
                string_from_chars(v.as_slice())
            },
        }
    }
}

/// Port dependencies of the discovery and routing service.
#[derive(Debug)]
pub struct ServicePorts<Cat, Reg, H, Gov, Log> {
    /// Catalog repository.
    pub catalog: std::sync::Arc<Cat>,
    /// Server registry.
    pub registry: std::sync::Arc<Reg>,
    /// Server host.
    pub host: std::sync::Arc<H>,
    /// Tool execution governance.
    pub governance: std::sync::Arc<Gov>,
    /// Log store.
    pub log_store: std::sync::Arc<Log>,
}

/// `r` is how a call for `tool_name` resolves against the catalog entries
/// found under that name.
pub open spec fn resolved_as(tool_name: Seq<char>, entries: Seq<EntryView>, r: Result<CatalogEntry, ToolDiscoveryRoutingServiceError>) -> bool {
    &&& entries.len() == 0 ==> (r matches Err(
        ToolDiscoveryRoutingServiceError::Domain(ToolRegistryDomainError::ToolNotFound(n)),
    ) && n@ == tool_name)
    &&& entries.len() == 1 ==> (r matches Ok(e) && e@ == entries[0])
    &&& entries.len() > 1 ==> (r matches Err(
        ToolDiscoveryRoutingServiceError::Domain(
            ToolRegistryDomainError::AmbiguousToolName { tool_name: n, server_count },
        ),
    ) && n@ == tool_name && server_count == entries.len())
}

/// `r` is what the pre-governance checks of `entry` give for `request`.
pub open spec fn prechecked_as(entry: EntryView, request: RequestView, r: Result<(), ToolDiscoveryRoutingServiceError>) -> bool {
    &&& !entry.available ==> (r matches Err(
        ToolDiscoveryRoutingServiceError::Domain(ToolRegistryDomainError::ToolUnavailable { tool_name, server_id }),
    ) && tool_name@ == request.tool_name && server_id == entry.server_id)
    &&& entry.available ==> match validation_failure(entry.tool.input_schema, request.parameters) {
        None => r is Ok,
        Some(reason) => r matches Err(
            ToolDiscoveryRoutingServiceError::Domain(
                ToolRegistryDomainError::SchemaValidationFailed { tool_name, reason: rr },
            ),
        ) && tool_name@ == request.tool_name && rr@ == reason,
    }
}

/// `r` is what governance's pre-call answer means for `request`.
pub open spec fn governed_as(
    request: RequestView,
    decision: Result<ToolGovernanceDecision, ToolGovernanceError>,
    r: Result<(), ToolDiscoveryRoutingServiceError>,
) -> bool {
    match decision {
        Err(ToolGovernanceError::EvaluationFailed { message }) => r matches Err(
            ToolDiscoveryRoutingServiceError::Policy(ToolPolicyError::EvaluationFailed(cause)),
        ) && cause@ == message@,
        Ok(ToolGovernanceDecision::Deny { reason }) => r matches Err(
            ToolDiscoveryRoutingServiceError::Domain(ToolRegistryDomainError::PolicyDenied { tool_name, reason: rr }),
        ) && tool_name@ == request.tool_name && rr@ == reason@,
        Ok(ToolGovernanceDecision::Allow) => r is Ok,
    }
}

/// `r` is what a lookup of `server_id` that found `found` gives a call or a
/// discovery: the server when it exists and runs.
pub open spec fn located_as(
    server_id: McpServerId,
    found: Option<McpServerRegistration>,
    r: Result<McpServerRegistration, ToolDiscoveryRoutingServiceError>,
) -> bool {
    match found {
        None => r == Err::<McpServerRegistration, ToolDiscoveryRoutingServiceError>(
            ToolDiscoveryRoutingServiceError::NotFound(server_id),
        ),
        Some(s) => if s@.lifecycle_state == McpServerLifecycleState::Running {
            r matches Ok(t) && t@ == s@
        } else {
            r matches Err(
                ToolDiscoveryRoutingServiceError::Domain(
                    ToolRegistryDomainError::ToolQueryRequiresRunning { server_id: id, state },
                ),
            ) && id == s@.id && state@ == lifecycle_text(s@.lifecycle_state)
        },
    }
}

/// The result a host answer gives a call completed at `completed_at`.
pub open spec fn call_result_view(
    request: RequestView,
    host_result: Result<ToolCallHostResult, McpServerHostError>,
    server_id: McpServerId,
    completed_at: i64,
) -> ResultView {
    ResultView {
        call_id: request.call_id,
        tool_name: request.tool_name,
        server_id,
        outcome: host_outcome(host_result),
        duration_micros: elapsed_spec(request.initiated_at, completed_at),
        completed_at,
    }
}

/// `a` is the audit record of a call rejected with `error` at
/// `completed_at`.
pub open spec fn rejection_audit_as(
    request: RequestView,
    server_id: McpServerId,
    error: ToolDiscoveryRoutingServiceError,
    completed_at: i64,
    a: AuditView,
) -> bool {
    &&& a.call_id == request.call_id
    &&& a.tool_name == request.tool_name
    &&& a.server_id == server_id
    &&& a.parameters == request.parameters
    &&& a.outcome == OutcomeView::Failure(service_error_text(error))
    &&& a.duration_micros == elapsed_spec(request.initiated_at, completed_at)
    &&& a.initiated_at == request.initiated_at
    &&& a.completed_at == completed_at
    &&& a.stderr_log_path is None
}

/// `a` is the audit record of an executed call with result `result`.
pub open spec fn completed_audit_as(request: RequestView, result: ResultView, stderr_log_path: Option<Seq<char>>, a: AuditView) -> bool {
    &&& a.call_id == result.call_id
    &&& a.tool_name == result.tool_name
    &&& a.server_id == result.server_id
    &&& a.parameters == request.parameters
    &&& a.outcome == result.outcome
    &&& a.duration_micros == result.duration_micros
    &&& a.initiated_at == request.initiated_at
    &&& a.completed_at == result.completed_at
    &&& a.stderr_log_path == stderr_log_path
}

/// Resolves a call to the catalog entries found under its tool name: none
/// is `ToolNotFound`, several are `AmbiguousToolName` with their count,
/// exactly one is the entry.
pub fn resolve_entry(tool_name: &str, entries: Vec<CatalogEntry>) -> (r: Result<CatalogEntry, ToolDiscoveryRoutingServiceError>)
    ensures
        resolved_as(tool_name@, entry_views(entries@), r),
{
    let n = entries.len();
    if n == 0 {
        return Err(ToolDiscoveryRoutingServiceError::Domain(ToolRegistryDomainError::ToolNotFound(tool_name.to_owned())));
    }
    if n > 1 {
        return Err(
            ToolDiscoveryRoutingServiceError::Domain(
                ToolRegistryDomainError::AmbiguousToolName { tool_name: tool_name.to_owned(), server_count: n },
            ),
        );
    }
    let mut entries = entries;
    let e = entries.remove(0);
    Ok(e)
}

/// The checks a resolved entry must pass before governance is asked: the
/// tool must be available, and the parameters must satisfy its input
/// schema (a failure names the requested tool).
pub fn precheck_entry(entry: &CatalogEntry, request: &ToolCallRequest) -> (r: Result<(), ToolDiscoveryRoutingServiceError>)
    ensures
        prechecked_as(entry@, request@, r),
{
    if !entry.available() {
        return Err(
            ToolDiscoveryRoutingServiceError::Domain(
                ToolRegistryDomainError::ToolUnavailable {
                    tool_name: request.tool_name().to_owned(),
                    server_id: entry.server_id(),
                },
            ),
        );
    }
    match validate_parameters(entry.tool().input_schema(), request.parameters()) {
        Ok(()) => Ok(()),
        Err(ToolRegistryDomainError::SchemaValidationFailed { reason, .. }) => Err(
            ToolDiscoveryRoutingServiceError::Domain(
                ToolRegistryDomainError::SchemaValidationFailed {
                    tool_name: request.tool_name().to_owned(),
                    reason,
                },
            ),
        ),
        Err(other) => Err(ToolDiscoveryRoutingServiceError::Domain(other)),
    }
}

/// What governance's pre-call answer means for the call: a failed
/// evaluation stops it as `Policy(EvaluationFailed)` with the cause, a denial
/// stops it as `PolicyDenied` with the reason, an allowance lets it proceed.
pub fn apply_governance_decision(
    request: &ToolCallRequest,
    decision: Result<ToolGovernanceDecision, ToolGovernanceError>,
) -> (r: Result<(), ToolDiscoveryRoutingServiceError>)
    ensures
        governed_as(request@, decision, r),
{
    match decision {
        Err(ToolGovernanceError::EvaluationFailed { message }) => Err(
            ToolDiscoveryRoutingServiceError::Policy(ToolPolicyError::EvaluationFailed(message)),
        ),
        Ok(ToolGovernanceDecision::Deny { reason }) => Err(
            ToolDiscoveryRoutingServiceError::Domain(
                ToolRegistryDomainError::PolicyDenied { tool_name: request.tool_name().to_owned(), reason },
            ),
        ),
        Ok(ToolGovernanceDecision::Allow) => Ok(()),
    }
}

/// A server looked up for a call or a discovery must exist and be running.
pub fn require_running_server(
    server_id: McpServerId,
    server: Option<McpServerRegistration>,
) -> (r: Result<McpServerRegistration, ToolDiscoveryRoutingServiceError>)
    ensures
        located_as(server_id, server, r),
{
    match server {
        None => Err(ToolDiscoveryRoutingServiceError::NotFound(server_id)),
        Some(s) => match s.ensure_can_query_tools() {
            Ok(()) => Ok(s),
            Err(e) => Err(ToolDiscoveryRoutingServiceError::Domain(e)),
        },
    }
}

/// The outcome a host answer gives.
pub open spec fn host_outcome(host_result: Result<ToolCallHostResult, McpServerHostError>) -> OutcomeView {
    match host_result {
        Ok(h) => OutcomeView::Success(h.content@),
        Err(e) => OutcomeView::Failure(host_error_text(e)),
    }
}

/// Turns the host's answer to a call into the call's result, the stderr
/// to capture, and the host error to report: the duration runs from the
/// request's initiation to `completed_at` (zero if that is earlier), a
/// success carries the content and its stderr, a failure the error text.
pub fn build_tool_call_result(
    request: &ToolCallRequest,
    host_result: Result<ToolCallHostResult, McpServerHostError>,
    server_id: McpServerId,
    completed_at: i64,
) -> (r: (ToolCallResult, Option<Vec<u8>>, Option<McpServerHostError>))
    ensures
        r.0@ == call_result_view(request@, host_result, server_id, completed_at),
        match host_result {
            Ok(h) => r.1 == h.stderr_output && r.2 is None,
            Err(e) => r.1 is None && r.2 == Some(e),
        },
{
    let duration_micros = elapsed_micros(request.initiated_at(), completed_at);
    let (outcome, stderr_output, host_error) = match host_result {
        Ok(response) => {
            let ToolCallHostResult { content, stderr_output } = response;
            (ToolCallOutcome::Success { content }, stderr_output, None)
        },
        Err(error) => {
            let text = error.message();
            (ToolCallOutcome::Failure { error: text }, None, Some(error))
        },
    };
    let timing = ToolCallTiming { duration_micros, completed_at };
    (ToolCallResult::from_request(request, server_id, outcome, timing), stderr_output, host_error)
}

/// The call's answer: the host error when there was one, else the result.
pub fn return_result_or_host_error(
    result: ToolCallResult,
    host_error: Option<McpServerHostError>,
) -> (r: Result<ToolCallResult, ToolDiscoveryRoutingServiceError>)
    ensures
        match host_error {
            Some(e) => r == Err::<ToolCallResult, ToolDiscoveryRoutingServiceError>(ToolDiscoveryRoutingServiceError::Host(e)),
            None => r matches Ok(x) && x@ == result@,
        },
{
    match host_error {
        Some(e) => Err(ToolDiscoveryRoutingServiceError::Host(e)),
        None => Ok(result),
    }
}

/// The audit record of a call rejected before execution: a failure
/// carrying the text of the rejection.
pub fn rejection_audit(
    request: &ToolCallRequest,
    server_id: McpServerId,
    error: &ToolDiscoveryRoutingServiceError,
    completed_at: i64,
) -> (r: ToolCallAuditRecord)
    ensures
        rejection_audit_as(request@, server_id, *error, completed_at, r@),
{
    let text = error.message();
    ToolCallAuditRecord::for_rejection(request, server_id, text.as_str(), completed_at)
}

/// The audit record of an executed call: its result, the request's
/// parameters and initiation time, and the path of its captured stderr.
pub fn completed_call_audit(
    request: &ToolCallRequest,
    result: &ToolCallResult,
    stderr_log_path: Option<&str>,
) -> (r: ToolCallAuditRecord)
    ensures
        completed_audit_as(
            request@,
            result@,
            match stderr_log_path {
                Some(p) => Some(p@),
                None => None::<Seq<char>>,
            },
            r@,
        ),
{
    let audit = ToolCallAuditRecord::from_result(result, request.parameters().cloned(), request.initiated_at());
    match stderr_log_path {
        Some(p) => audit.with_stderr_log_path(p),
        None => audit,
    }
}

/// The stderr of a call worth capturing, with its log metadata: none when
/// the host returned no stderr or an empty one.
pub fn tool_call_stderr_capture(
    result: &ToolCallResult,
    stderr_output: Option<Vec<u8>>,
    ctx: &LogCaptureContext<'_>,
) -> (r: Option<(LogEntryMetadata, Vec<u8>)>)
    requires
        (stderr_output matches Some(b) && b@.len() > 0) ==> i64::MIN <= ctx.now + ctx.retention.retention_period
            <= i64::MAX,
    ensures
        match stderr_output {
            None => r is None,
            Some(b) => if b@.len() == 0 {
                r is None
            } else {
                r matches Some((m, c)) && c@ == b@ && m@.server_id == result@.server_id && m@.kind == (
                LogEntryKind::ToolCall { call_id: result@.call_id }) && m@.byte_count == b@.len()
                    && m@.object_path == object_path_spec(
                    ctx.tenant_id,
                    result@.server_id,
                    LogEntryKind::ToolCall { call_id: result@.call_id },
                    m@.id,
                ) && m@.captured_at == ctx.now && m@.expires_at == ctx.now
                    + ctx.retention.retention_period
            },
        },
{
    match stderr_output {
        None => None,
        Some(b) => {
            if b.len() == 0 {
                return None;
            }
            let byte_count = b.len() as u64;
            let m = LogEntryMetadata::for_tool_call(result.server_id(), result.call_id(), byte_count, ctx);
            Some((m, b))
        },
    }
}

/// The catalog entries a discovery of `tools` on `server` produces: one
/// available entry per tool, in order, discovered at `now`.
pub fn entries_for_discovered_tools(
    server: &McpServerRegistration,
    tools: Vec<McpToolDefinition>,
    now: i64,
) -> (r: Vec<CatalogEntry>)
    ensures
        r@.len() == tools@.len(),
        forall|i: int|
            0 <= i < tools@.len() ==> {
                let e = #[trigger] r@[i]@;
                &&& e.server_id == server@.id
                &&& e.server_name == server@.name
                &&& e.tool == tools@[i]@
                &&& e.available
                &&& e.discovered_at == now
                &&& e.updated_at == now
            },
{
    let mut out: Vec<CatalogEntry> = Vec::new();
    let mut rest = tools;
    let ghost all = rest@;
    let n = rest.len();
    let mut reversed: Vec<McpToolDefinition> = Vec::new();
    while rest.len() > 0
        invariant
            reversed@.len() + rest@.len() == n,
            n == all.len(),
            rest@ == all.take(rest@.len() as int),
            forall|k: int| 0 <= k < reversed@.len() ==> #[trigger] reversed@[k] == all[n - 1 - k],
        decreases rest@.len(),
    {
        let t = rest.pop().unwrap();
        reversed.push(t);
        assert(rest@ =~= all.take(rest@.len() as int));
    }
    while reversed.len() > 0
        invariant
            out@.len() + reversed@.len() == n,
            n == all.len(),
            forall|k: int| 0 <= k < reversed@.len() ==> #[trigger] reversed@[k] == all[n - 1 - k],
            forall|k: int|
                0 <= k < out@.len() ==> {
                    let e = #[trigger] out@[k]@;
                    &&& e.server_id == server@.id
                    &&& e.server_name == server@.name
                    &&& e.tool == all[k]@
                    &&& e.available
                    &&& e.discovered_at == now
                    &&& e.updated_at == now
                },
        decreases reversed@.len(),
    {
        let ghost k = out@.len();
        let t = reversed.pop().unwrap();
        assert(t == all[k as int]);
        let e = CatalogEntry::new(server.id(), server.name().cloned(), t, now);
        out.push(e);
    }
    out
}

/// How a failed catalog sync surfaces from a discovery: a name that another
/// server already advertises is `AmbiguousToolName`; any other failure is
/// passed on as a catalog error.
pub open spec fn sync_error_spec(err: ToolCatalogError) -> ToolDiscoveryRoutingServiceError {
    match err {
        ToolCatalogError::DuplicateEntry { tool_name, server_count, .. } => ToolDiscoveryRoutingServiceError::Domain(
            ToolRegistryDomainError::AmbiguousToolName { tool_name, server_count },
        ),
        other => ToolDiscoveryRoutingServiceError::Catalog(other),
    }
}

/// The discovery error for a failed catalog sync, as [`sync_error_spec`]
/// states it.
pub fn map_sync_error(err: ToolCatalogError) -> (r: ToolDiscoveryRoutingServiceError)
    ensures
        r == sync_error_spec(err),
{
    match err {
        ToolCatalogError::DuplicateEntry { tool_name, server_count, .. } => ToolDiscoveryRoutingServiceError::Domain(
            ToolRegistryDomainError::AmbiguousToolName { tool_name, server_count },
        ),
        other => ToolDiscoveryRoutingServiceError::Catalog(other),
    }
}

} // verus!
