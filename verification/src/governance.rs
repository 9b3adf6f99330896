//! Tool execution governance: the decision a governance enforcement point
//! returns before a call, fixed-outcome adapters, and the reading of hook
//! policy audit events into a decision.

use crate::catalog::{CatalogEntry, EntryView};
use crate::ids::uuid_text_spec;
use crate::json::{lemma_member_views_of_index, member_views_of, JsonValue, JsonView};
use crate::routing::{OutcomeView, RequestView, ResultView, ToolCallOutcome, ToolCallRequest, ToolCallResult};
use crate::summary::{char_count, member, num_view, number, summarize_json_footprint, summary_view, text};
use crate::text::{push_str, string_from_chars};
use std::sync::Arc;
use vstd::prelude::*;

verus! {

/// Outcome of a governance evaluation for a tool call.
#[derive(Debug, Clone, PartialEq, Eq)]
pub enum ToolGovernanceDecision {
    /// The tool call is permitted.
    Allow,
    /// The tool call is denied with an explanation.
    Deny {
        /// Human-readable reason for denial.
        reason: String,
    },
}

impl ToolGovernanceDecision {
    /// Returns `true` when the decision permits the tool call.
    pub fn is_allowed(&self) -> (r: bool)
        ensures
            r == (*self is Allow),
    {
        match self {
            ToolGovernanceDecision::Allow => true,
            ToolGovernanceDecision::Deny { .. } => false,
        }
    }

    /// Returns the denial reason, if the decision is `Deny`.
    pub fn denial_reason(&self) -> (r: Option<&str>)
        ensures
            match *self {
                ToolGovernanceDecision::Allow => r is None,
                ToolGovernanceDecision::Deny { reason } => r is Some && r->0@ == reason@,
            },
    {
        match self {
            ToolGovernanceDecision::Allow => None,
            ToolGovernanceDecision::Deny { reason } => Some(reason.as_str()),
        }
    }
}

/// Errors returned by tool governance adapters.
#[derive(Debug, Clone, PartialEq, Eq)]
pub enum ToolGovernanceError {
    /// Governance evaluation failed.
    EvaluationFailed {
        /// Human-readable failure reason.
        message: String,
    },
}

impl ToolGovernanceError {
    /// The human-readable text of this error.
    pub fn message(&self) -> (r: String)
        ensures
            r@ == "tool governance failed: "@ + self->message@,
    {
        let ToolGovernanceError::EvaluationFailed { message } = self;
        let mut v: Vec<char> = Vec::new();
        push_str(&mut v, "tool governance failed: ");
        push_str(&mut v, message.as_str());
        string_from_chars(v.as_slice())
    }
}

/// Errors returned when a tool policy evaluation itself fails.
#[derive(Debug, Clone, PartialEq, Eq)]
pub enum ToolPolicyError {
    /// The policy evaluation mechanism failed; the text of the cause.
    EvaluationFailed(String),
}

impl ToolPolicyError {
    /// The human-readable text of this error.
    pub fn message(&self) -> (r: String)
        ensures
            r@ == "policy evaluation failed: "@ + self->EvaluationFailed_0@,
    {
        let ToolPolicyError::EvaluationFailed(cause) = self;
        let mut v: Vec<char> = Vec::new();
        push_str(&mut v, "policy evaluation failed: ");
        push_str(&mut v, cause.as_str());
        string_from_chars(v.as_slice())
    }
}

/// The fixed outcome returned by a [`StubGovernance`] adapter.
#[derive(Debug, Clone, PartialEq, Eq)]
pub enum StubOutcome {
    /// Every call is allowed.
    Allow,
    /// Every call is denied with `reason`.
    Deny {
        /// Denial reason.
        reason: String,
    },
    /// Every evaluation fails with `message`.
    Fail {
        /// Failure message.
        message: String,
    },
}

impl StubOutcome {
    /// The pre-call decision this outcome stands for.
    pub fn before_call(&self) -> (r: Result<ToolGovernanceDecision, ToolGovernanceError>)
        ensures
            match *self {
                StubOutcome::Allow => r == Ok::<ToolGovernanceDecision, ToolGovernanceError>(ToolGovernanceDecision::Allow),
                StubOutcome::Deny { reason } => r matches Ok(ToolGovernanceDecision::Deny { reason: d }) && d@ == reason@,
                StubOutcome::Fail { message } => r matches Err(ToolGovernanceError::EvaluationFailed { message: m }) && m@ == message@,
            },
    {
        match self {
            StubOutcome::Allow => Ok(ToolGovernanceDecision::Allow),
            StubOutcome::Deny { reason } => Ok(ToolGovernanceDecision::Deny { reason: reason.clone() }),
            StubOutcome::Fail { message } => Err(ToolGovernanceError::EvaluationFailed { message: message.clone() }),
        }
    }

    /// The post-call observation result this outcome stands for: only a
    /// failing outcome fails.
    pub fn after_call(&self) -> (r: Result<(), ToolGovernanceError>)
        ensures
            match *self {
                StubOutcome::Fail { message } => r matches Err(ToolGovernanceError::EvaluationFailed { message: m }) && m@ == message@,
                _ => r is Ok,
            },
    {
        match self {
            StubOutcome::Fail { message } => Err(ToolGovernanceError::EvaluationFailed { message: message.clone() }),
            StubOutcome::Allow => Ok(()),
            StubOutcome::Deny { .. } => Ok(()),
        }
    }
}

/// Governance adapter that returns a fixed outcome regardless of the call.
#[derive(Debug, Clone)]
pub struct StubGovernance {
    outcome: StubOutcome,
}

impl StubGovernance {
    /// A stub that always allows tool execution.
    pub fn allowing() -> (r: Self)
        ensures
            r.outcome() == StubOutcome::Allow,
    {
        StubGovernance { outcome: StubOutcome::Allow }
    }

    /// A stub that always denies tool execution with `reason`.
    pub fn denying(reason: &str) -> (r: Self)
        ensures
            r.outcome() matches StubOutcome::Deny { reason: d } && d@ == reason@,
    {
        StubGovernance { outcome: StubOutcome::Deny { reason: reason.to_owned() } }
    }

    /// A stub that always fails governance evaluation with `message`.
    pub fn failing(message: &str) -> (r: Self)
        ensures
            r.outcome() matches StubOutcome::Fail { message: m } && m@ == message@,
    {
        StubGovernance { outcome: StubOutcome::Fail { message: message.to_owned() } }
    }

    /// The fixed outcome.
    pub closed spec fn outcome(&self) -> StubOutcome {
        self.outcome
    }

    /// The pre-call decision, the same for every call.
    pub fn enforce_before_call(&self, request: &ToolCallRequest, entry: &CatalogEntry) -> (r: Result<
        ToolGovernanceDecision,
        ToolGovernanceError,
    >)
        ensures
            match self.outcome() {
                StubOutcome::Allow => r == Ok::<ToolGovernanceDecision, ToolGovernanceError>(ToolGovernanceDecision::Allow),
                StubOutcome::Deny { reason } => r matches Ok(ToolGovernanceDecision::Deny { reason: d }) && d@ == reason@,
                StubOutcome::Fail { message } => r matches Err(ToolGovernanceError::EvaluationFailed { message: m }) && m@ == message@,
            },
    {
        self.outcome.before_call()
    }

    /// The post-call observation result, the same for every call.
    pub fn observe_after_call(&self, result: &ToolCallResult) -> (r: Result<(), ToolGovernanceError>)
        ensures
            match self.outcome() {
                StubOutcome::Fail { message } => r matches Err(ToolGovernanceError::EvaluationFailed { message: m }) && m@ == message@,
                _ => r is Ok,
            },
    {
        self.outcome.after_call()
    }
}

impl Default for StubGovernance {
    fn default() -> (r: Self)
        ensures
            r.outcome() == StubOutcome::Allow,
    {
        Self::allowing()
    }
}

/// The always-allowing governance adapter.
#[derive(Debug, Clone)]
pub struct AllowAllPolicy(pub StubGovernance);

impl AllowAllPolicy {
    /// A governance adapter that always allows tool execution.
    pub fn new() -> (r: Self)
        ensures
            r.0.outcome() == StubOutcome::Allow,
    {
        AllowAllPolicy(StubGovernance::allowing())
    }
}

impl Default for AllowAllPolicy {
    fn default() -> (r: Self)
        ensures
            r.0.outcome() == StubOutcome::Allow,
    {
        Self::new()
    }
}

/// The always-denying governance adapter.
#[derive(Debug, Clone)]
pub struct DenyAllPolicy(pub StubGovernance);

impl DenyAllPolicy {
    /// A governance adapter that always denies tool execution with `message`.
    pub fn new(message: &str) -> (r: Self)
        ensures
            r.0.outcome() matches StubOutcome::Deny { reason: d } && d@ == message@,
    {
        DenyAllPolicy(StubGovernance::denying(message))
    }
}

impl Default for DenyAllPolicy {
    fn default() -> (r: Self)
        ensures
            r.0.outcome() matches StubOutcome::Deny { reason: d } && d@ == "tool execution denied"@,
    {
        Self::new("tool execution denied")
    }
}

/// The always-failing governance adapter.
#[derive(Debug, Clone)]
pub struct FailingPolicy(pub StubGovernance);

impl FailingPolicy {
    /// A governance adapter that always fails evaluation with `message`.
    pub fn new(message: &str) -> (r: Self)
        ensures
            r.0.outcome() matches StubOutcome::Fail { message: m } && m@ == message@,
    {
        FailingPolicy(StubGovernance::failing(message))
    }
}

impl Default for FailingPolicy {
    fn default() -> (r: Self)
        ensures
            r.0.outcome() matches StubOutcome::Fail { message: m } && m@ == "tool governance failed"@,
    {
        Self::new("tool governance failed")
    }
}

impl From<StubGovernance> for AllowAllPolicy {
    fn from(governance: StubGovernance) -> (r: Self) {
        AllowAllPolicy(governance)
    }
}

impl vstd::std_specs::convert::FromSpecImpl<StubGovernance> for AllowAllPolicy {
    open spec fn obeys_from_spec() -> bool {
        true
    }

    open spec fn from_spec(v: StubGovernance) -> Self {
        AllowAllPolicy(v)
    }
}

impl From<AllowAllPolicy> for StubGovernance {
    fn from(policy: AllowAllPolicy) -> (r: Self) {
        policy.0
    }
}

impl vstd::std_specs::convert::FromSpecImpl<AllowAllPolicy> for StubGovernance {
    open spec fn obeys_from_spec() -> bool {
        true
    }

    open spec fn from_spec(v: AllowAllPolicy) -> Self {
        v.0
    }
}

impl From<StubGovernance> for DenyAllPolicy {
    fn from(governance: StubGovernance) -> (r: Self) {
        DenyAllPolicy(governance)
    }
}

impl vstd::std_specs::convert::FromSpecImpl<StubGovernance> for DenyAllPolicy {
    open spec fn obeys_from_spec() -> bool {
        true
    }

    open spec fn from_spec(v: StubGovernance) -> Self {
        DenyAllPolicy(v)
    }
}

impl From<DenyAllPolicy> for StubGovernance {
    fn from(policy: DenyAllPolicy) -> (r: Self) {
        policy.0
    }
}

impl vstd::std_specs::convert::FromSpecImpl<DenyAllPolicy> for StubGovernance {
    open spec fn obeys_from_spec() -> bool {
        true
    }

    open spec fn from_spec(v: DenyAllPolicy) -> Self {
        v.0
    }
}

impl From<StubGovernance> for FailingPolicy {
    fn from(governance: StubGovernance) -> (r: Self) {
        FailingPolicy(governance)
    }
}

impl vstd::std_specs::convert::FromSpecImpl<StubGovernance> for FailingPolicy {
    open spec fn obeys_from_spec() -> bool {
        true
    }

    open spec fn from_spec(v: StubGovernance) -> Self {
        FailingPolicy(v)
    }
}

impl From<FailingPolicy> for StubGovernance {
    fn from(policy: FailingPolicy) -> (r: Self) {
        policy.0
    }
}

impl vstd::std_specs::convert::FromSpecImpl<FailingPolicy> for StubGovernance {
    open spec fn obeys_from_spec() -> bool {
        true
    }

    open spec fn from_spec(v: FailingPolicy) -> Self {
        v.0
    }
}

/// Decision recorded by a policy audit event of the hook engine.
#[derive(Debug, Clone, Copy, PartialEq, Eq)]
pub enum PolicyAuditDecision {
    /// The policy allowed the action.
    Allow,
    /// The policy denied the action.
    Deny,
}

/// What governance reads of a hook policy audit event: its decision and
/// the reason of its violation, if one was recorded.
#[derive(Debug, Clone, PartialEq, Eq)]
pub struct PolicyAuditEvent {
    /// The recorded decision.
    pub decision: PolicyAuditDecision,
    /// Reason of the recorded violation, if any.
    pub violation_reason: Option<String>,
}

/// The denial reason that a list of audit events gives: that of the first
/// denying event (its violation reason, or a generic text), if any.
pub open spec fn denial_reason_spec(events: Seq<PolicyAuditEvent>) -> Option<Seq<char>>
    decreases events.len(),
{
    if events.len() == 0 {
        None
    } else if events[0].decision == PolicyAuditDecision::Deny {
        match events[0].violation_reason {
            Some(r) => Some(r@),
            None => Some("policy denied tool call"@),
        }
    } else {
        denial_reason_spec(events.drop_first())
    }
}

/// The reason a denying event gives: its recorded violation reason, or the
/// generic text when none was recorded.
pub open spec fn event_denial_text(e: PolicyAuditEvent) -> Seq<char> {
    match e.violation_reason {
        Some(r) => r@,
        None => "policy denied tool call"@,
    }
}

/// A list of audit events denies exactly when some event in it denies,
/// wherever it stands; the reason is then that of the first denying event.
pub proof fn lemma_denial_reason_is_first_deny(events: Seq<PolicyAuditEvent>)
    ensures
        denial_reason_spec(events) is None <==> forall|i: int|
            0 <= i < events.len() ==> (#[trigger] events[i]).decision == PolicyAuditDecision::Allow,
        forall|j: int|
            0 <= j < events.len() && (#[trigger] events[j]).decision == PolicyAuditDecision::Deny && (forall|i: int|
                0 <= i < j ==> events[i].decision == PolicyAuditDecision::Allow) ==> denial_reason_spec(events)
                == Some(event_denial_text(events[j])),
    decreases events.len(),
{
    if events.len() > 0 {
        let rest = events.drop_first();
        lemma_denial_reason_is_first_deny(rest);
        assert forall|i: int| 0 <= i < rest.len() implies #[trigger] rest[i] == events[i + 1] by {}
        if events[0].decision == PolicyAuditDecision::Allow {
            if !(forall|i: int| 0 <= i < events.len() ==> (#[trigger] events[i]).decision == PolicyAuditDecision::Allow) {
                let k = choose|k: int| 0 <= k < events.len() && (#[trigger] events[k]).decision != PolicyAuditDecision::Allow;
                assert(rest[k - 1] == events[k]);
            }
            assert forall|j: int|
                0 <= j < events.len() && (#[trigger] events[j]).decision == PolicyAuditDecision::Deny && (forall|i: int|
                    0 <= i < j ==> events[i].decision == PolicyAuditDecision::Allow) implies denial_reason_spec(events)
                == Some(event_denial_text(events[j])) by {
                assert(j > 0);
                assert(rest[j - 1] == events[j]);
                assert forall|i: int| 0 <= i < j - 1 implies rest[i].decision == PolicyAuditDecision::Allow by {
                    assert(rest[i] == events[i + 1]);
                }
            }
        } else {
            assert forall|j: int|
                0 <= j < events.len() && (#[trigger] events[j]).decision == PolicyAuditDecision::Deny && (forall|i: int|
                    0 <= i < j ==> events[i].decision == PolicyAuditDecision::Allow) implies denial_reason_spec(events)
                == Some(event_denial_text(events[j])) by {
                if j > 0 {
                    assert(events[0].decision == PolicyAuditDecision::Allow);
                }
            }
        }
    }
}

/// The denial reason of the first denying event, if any.
pub fn denial_reason(events: Vec<PolicyAuditEvent>) -> (r: Option<String>)
    ensures
        match denial_reason_spec(events@) {
            None => r is None,
            Some(t) => r is Some && r->0@ == t,
        },
{
    let n = events.len();
    let mut i: usize = 0;
    assert(events@.skip(0) =~= events@);
    while i < n
        invariant
            n == events@.len(),
            i <= n,
            denial_reason_spec(events@) == denial_reason_spec(events@.skip(i as int)),
        decreases n - i,
    {
        assert(events@.skip(i as int)[0] == events@[i as int]);
        let denies = match events[i].decision {
            PolicyAuditDecision::Deny => true,
            PolicyAuditDecision::Allow => false,
        };
        if denies {
            return match &events[i].violation_reason {
                Some(reason) => Some(reason.clone()),
                None => Some("policy denied tool call".to_owned()),
            };
        }
        assert(events@.skip(i as int).drop_first() =~= events@.skip(i + 1));
        i = i + 1;
    }
    None
}

/// The pre-call decision that the policy audit events of a hook evaluation
/// give: a denial with the first denying event's reason, else allow.
pub fn decision_from_events(events: Vec<PolicyAuditEvent>) -> (r: ToolGovernanceDecision)
    ensures
        match denial_reason_spec(events@) {
            None => r == ToolGovernanceDecision::Allow,
            Some(t) => r matches ToolGovernanceDecision::Deny { reason } && reason@ == t,
        },
        r == ToolGovernanceDecision::Allow <==> forall|i: int|
            0 <= i < events@.len() ==> (#[trigger] events@[i]).decision == PolicyAuditDecision::Allow,
{
    proof {
        lemma_denial_reason_is_first_deny(events@);
    }
    match denial_reason(events) {
        None => ToolGovernanceDecision::Allow,
        Some(reason) => ToolGovernanceDecision::Deny { reason },
    }
}

/// Governance adapter that delegates enforcement and observation to a hook
/// engine and a policy audit repository.
#[derive(Debug)]
pub struct HookBackedToolExecutionGovernance<E, R> {
    hook_engine: Arc<E>,
    policy_audit_repository: Arc<R>,
}

impl<E, R> HookBackedToolExecutionGovernance<E, R> {
    /// Creates a hook-backed governance adapter.
    pub fn new(hook_engine: Arc<E>, policy_audit_repository: Arc<R>) -> (r: Self)
        ensures
            r.hook_engine() == hook_engine,
            r.policy_audit_repository() == policy_audit_repository,
    {
        HookBackedToolExecutionGovernance { hook_engine, policy_audit_repository }
    }

    /// The hook engine this adapter delegates to.
    pub closed spec fn hook_engine(&self) -> Arc<E> {
        self.hook_engine
    }

    /// The policy audit repository this adapter reads.
    pub closed spec fn policy_audit_repository(&self) -> Arc<R> {
        self.policy_audit_repository
    }

    /// Returns the hook engine.
    pub fn engine(&self) -> (r: &Arc<E>)
        ensures
            *r == self.hook_engine(),
    {
        &self.hook_engine
    }

    /// Returns the policy audit repository.
    pub fn audit_repository(&self) -> (r: &Arc<R>)
        ensures
            *r == self.policy_audit_repository(),
    {
        &self.policy_audit_repository
    }
}

/// Summary of a call's result for governance hooks: success with a summary
/// of its content, or failure with the length of its error text.
pub open spec fn result_summary_view(outcome: OutcomeView) -> JsonView {
    match outcome {
        OutcomeView::Success(c) => JsonView::Object(
            seq![("content"@, summary_view(c, 0)), ("status"@, JsonView::Str("success"@))],
        ),
        OutcomeView::Failure(e) => JsonView::Object(
            seq![
                ("error"@, JsonView::Object(seq![("length"@, num_view(e.len()))])),
                ("status"@, JsonView::Str("failure"@)),
            ],
        ),
    }
}

/// The hook execution scope metadata for a governance evaluation: call
/// identity, tool name, resolved server, summaries of the parameters and of
/// the workflow metadata, and a summary of the result (`null` before the
/// call has run). Keys in ascending order.
pub open spec fn scope_metadata_view(request: RequestView, entry: EntryView, result: Option<ResultView>) -> JsonView {
    JsonView::Object(
        seq![
            ("call_id"@, JsonView::Str(uuid_text_spec(request.call_id.0))),
            ("parameters"@, summary_view(request.parameters, 0)),
            ("result"@, match result {
                None => JsonView::Null,
                Some(res) => result_summary_view(res.outcome),
            }),
            ("server_id"@, JsonView::Str(uuid_text_spec(entry.server_id.0))),
            ("tool_name"@, JsonView::Str(request.tool_name)),
            ("workflow_metadata"@, summary_view(request.execution_scope.metadata, 0)),
        ],
    )
}

/// Summarizes a call's result for governance hooks.
pub fn summarize_result(result: &ToolCallResult) -> (r: JsonValue)
    ensures
        r@ == result_summary_view(result@.outcome),
{
    match result.outcome() {
        ToolCallOutcome::Success { content } => {
            let v = vec![member("content", summarize_json_footprint(content, 0)), member("status", text("success"))];
            proof {
                lemma_member_views_of_index(v@);
                assert(member_views_of(v@) =~= seq![("content"@, summary_view(content@, 0)), ("status"@, JsonView::Str("success"@))]);
            }
            JsonValue::Object(v)
        },
        ToolCallOutcome::Failure { error } => {
            let inner = vec![member("length", number(char_count(error)))];
            proof {
                lemma_member_views_of_index(inner@);
                assert(member_views_of(inner@) =~= seq![("length"@, num_view(error@.len()))]);
            }
            let v = vec![member("error", JsonValue::Object(inner)), member("status", text("failure"))];
            proof {
                lemma_member_views_of_index(v@);
                assert(member_views_of(v@) =~= seq![
                    ("error"@, JsonView::Object(seq![("length"@, num_view(error@.len()))])),
                    ("status"@, JsonView::Str("failure"@)),
                ]);
            }
            JsonValue::Object(v)
        },
    }
}

/// Builds the hook execution scope metadata for a governance evaluation.
pub fn build_scope_metadata(request: &ToolCallRequest, entry: &CatalogEntry, result: Option<&ToolCallResult>) -> (r: JsonValue)
    ensures
        r@ == scope_metadata_view(
            request@,
            entry@,
            match result {
                None => None,
                Some(res) => Some(res@),
            },
        ),
{
    let res_summary = match result {
        None => JsonValue::Null,
        Some(res) => summarize_result(res),
    };
    let ghost ro: Option<ResultView> = match result {
        None => None,
        Some(res) => Some(res@),
    };
    let ghost want_res = match ro {
        None => JsonView::Null,
        Some(rv) => result_summary_view(rv.outcome),
    };
    let call_text = request.call_id().to_text();
    let server_text = entry.server_id().to_text();
    let v = vec![
        member("call_id", JsonValue::String(call_text)),
        member("parameters", summarize_json_footprint(request.parameters(), 0)),
        member("result", res_summary),
        member("server_id", JsonValue::String(server_text)),
        member("tool_name", text(request.tool_name())),
        member("workflow_metadata", summarize_json_footprint(request.execution_scope().metadata(), 0)),
    ];
    let out = JsonValue::Object(v);
    proof {
        let expect = seq![
            ("call_id"@, JsonView::Str(uuid_text_spec(request@.call_id.0))),
            ("parameters"@, summary_view(request@.parameters, 0)),
            ("result"@, want_res),
            ("server_id"@, JsonView::Str(uuid_text_spec(entry@.server_id.0))),
            ("tool_name"@, JsonView::Str(request@.tool_name)),
            ("workflow_metadata"@, summary_view(request@.execution_scope.metadata, 0)),
        ];
        lemma_member_views_of_index(v@);
        assert(member_views_of(v@) =~= expect);
        // `scope_metadata_view` lists the same six members.
        if let JsonView::Object(s) = scope_metadata_view(request@, entry@, ro) {
            assert(s[2] == expect[2]);
            assert(s =~= expect);
        }
    }
    out
}

/// The lifecycle point a hook evaluation is triggered for.
#[derive(Debug, Clone, Copy, PartialEq, Eq)]
pub enum HookTriggerType {
    /// Before a tool call is executed.
    PreToolUse,
    /// After a tool call has completed.
    PostToolUse,
}

/// The workflow scope a hook evaluation sees.
#[derive(Debug)]
pub struct HookExecutionScope {
    /// Workflow task, if any.
    pub task_id: Option<crate::ids::TaskId>,
    /// Conversation, if any.
    pub conversation_id: Option<crate::ids::ConversationId>,
    /// Scope metadata summarizing the call.
    pub metadata: JsonValue,
}

/// What the hook engine is asked to evaluate.
#[derive(Debug)]
pub struct HookTriggerContext {
    /// Identifier of this evaluation, under which policy audit events are
    /// recorded.
    pub id: u128,
    /// Lifecycle point.
    pub trigger_type: HookTriggerType,
    /// Workflow scope.
    pub execution_scope: HookExecutionScope,
    /// When the triggering event occurred (microseconds since the epoch).
    pub occurred_at: i64,
}

/// The hook scope of a call's execution scope: its task and conversation,
/// with `metadata` in place of the call's own.
pub fn project_execution_scope(scope: &crate::routing::ToolExecutionScope, metadata: JsonValue) -> (r: HookExecutionScope)
    ensures
        r.task_id == scope@.task_id,
        r.conversation_id == scope@.conversation_id,
        r.metadata == metadata,
{
    HookExecutionScope { task_id: scope.task_id(), conversation_id: scope.conversation_id(), metadata }
}

/// The evaluation the hook engine is asked for at `trigger_type`: a fresh
/// random identifier, the call's scope with the scope metadata of the
/// request, entry and result, and the time of the triggering event (the
/// result's completion, or the request's initiation before the call).
pub fn build_trigger_context(
    trigger_type: HookTriggerType,
    request: &ToolCallRequest,
    entry: &CatalogEntry,
    result: Option<&ToolCallResult>,
) -> (r: HookTriggerContext)
    ensures
        crate::ids::is_v4_uuid(r.id),
        r.trigger_type == trigger_type,
        r.execution_scope.task_id == request@.execution_scope.task_id,
        r.execution_scope.conversation_id == request@.execution_scope.conversation_id,
        r.execution_scope.metadata@ == scope_metadata_view(
            request@,
            entry@,
            match result {
                None => None,
                Some(res) => Some(res@),
            },
        ),
        r.occurred_at == match result {
            None => request@.initiated_at,
            Some(res) => res@.completed_at,
        },
{
    let metadata = build_scope_metadata(request, entry, result);
    let execution_scope = project_execution_scope(request.execution_scope(), metadata);
    let occurred_at = match result {
        None => request.initiated_at(),
        Some(res) => res.completed_at(),
    };
    HookTriggerContext { id: crate::ids::random_uuid(), trigger_type, execution_scope, occurred_at }
}

} // verus!

verus! {

/// Whether two call outcomes have the same shape: both successes whose
/// contents have the same shape, or both failures with error texts of the
/// same length.
pub open spec fn same_outcome_shape(a: OutcomeView, b: OutcomeView) -> bool {
    match (a, b) {
        (OutcomeView::Success(x), OutcomeView::Success(y)) => crate::summary::same_shape(x, y),
        (OutcomeView::Failure(x), OutcomeView::Failure(y)) => x.len() == y.len(),
        _ => false,
    }
}

/// The scope metadata that governance hooks see depends on a call's
/// parameters, workflow metadata and outcome only through their shape:
/// two calls with the same identifiers and tool, on the same server, whose
/// payloads have the same shapes, give the same metadata, whatever their
/// leaf values. It is an object with exactly the keys `call_id`,
/// `parameters`, `result`, `server_id`, `tool_name` and
/// `workflow_metadata`, and `result` is `null` exactly before the call
/// has run.
pub proof fn lemma_build_scope_metadata_shape_only(
    a: RequestView,
    b: RequestView,
    entry: EntryView,
    ra: Option<ResultView>,
    rb: Option<ResultView>,
)
    requires
        a.call_id == b.call_id,
        a.tool_name == b.tool_name,
        crate::summary::same_shape(a.parameters, b.parameters),
        crate::summary::same_shape(a.execution_scope.metadata, b.execution_scope.metadata),
        ra is None <==> rb is None,
        ra matches Some(x) ==> same_outcome_shape(x.outcome, rb->Some_0.outcome),
    ensures
        scope_metadata_view(a, entry, ra) == scope_metadata_view(b, entry, rb),
        scope_metadata_view(a, entry, ra) matches JsonView::Object(m) && m.len() == 6 && m[0].0 == "call_id"@
            && m[1].0 == "parameters"@ && m[2].0 == "result"@ && m[3].0 == "server_id"@ && m[4].0 == "tool_name"@
            && m[5].0 == "workflow_metadata"@ && (m[2].1 == JsonView::Null <==> ra is None),
{
    crate::summary::lemma_summary_depends_on_shape(a.parameters, b.parameters, 0);
    crate::summary::lemma_summary_depends_on_shape(a.execution_scope.metadata, b.execution_scope.metadata, 0);
    match (ra, rb) {
        (Some(x), Some(y)) => {
            match (x.outcome, y.outcome) {
                (OutcomeView::Success(c), OutcomeView::Success(d)) => {
                    crate::summary::lemma_summary_depends_on_shape(c, d, 0);
                },
                _ => {},
            }
            assert(result_summary_view(x.outcome) =~~= result_summary_view(y.outcome));
        },
        _ => {},
    }
    let res_a = match ra {
        None => JsonView::Null,
        Some(res) => result_summary_view(res.outcome),
    };
    let res_b = match rb {
        None => JsonView::Null,
        Some(res) => result_summary_view(res.outcome),
    };
    assert(res_a == res_b);
    assert(summary_view(a.parameters, 0) == summary_view(b.parameters, 0));
    assert(summary_view(a.execution_scope.metadata, 0) == summary_view(b.execution_scope.metadata, 0));
    let ma = seq![
        ("call_id"@, JsonView::Str(uuid_text_spec(a.call_id.0))),
        ("parameters"@, summary_view(a.parameters, 0)),
        ("result"@, res_a),
        ("server_id"@, JsonView::Str(uuid_text_spec(entry.server_id.0))),
        ("tool_name"@, JsonView::Str(a.tool_name)),
        ("workflow_metadata"@, summary_view(a.execution_scope.metadata, 0)),
    ];
    let mb = seq![
        ("call_id"@, JsonView::Str(uuid_text_spec(b.call_id.0))),
        ("parameters"@, summary_view(b.parameters, 0)),
        ("result"@, res_b),
        ("server_id"@, JsonView::Str(uuid_text_spec(entry.server_id.0))),
        ("tool_name"@, JsonView::Str(b.tool_name)),
        ("workflow_metadata"@, summary_view(b.execution_scope.metadata, 0)),
    ];
    assert(scope_metadata_view(a, entry, ra)->Object_0 =~= ma);
    assert(scope_metadata_view(b, entry, rb)->Object_0 =~= mb);
    assert(ma =~= mb);
}

} // verus!
