//! Tool call routing values: the inbound request, its outcome, the
//! completed result with timing, and the audit trail entry.

use crate::ids::{ConversationId, McpServerId, TaskId, ToolCallId};
use crate::json::{JsonValue, JsonView};
use vstd::prelude::*;

verus! {

/// Microseconds from `from` to `to`, or zero when `to` is earlier.
pub open spec fn elapsed_spec(from: i64, to: i64) -> u64 {
    if to >= from {
        (to - from) as u64
    } else {
        0
    }
}

/// Microseconds from `from` to `to`, or zero when `to` is earlier (a
/// negative span is not a duration).
pub fn elapsed_micros(from: i64, to: i64) -> (r: u64)
    ensures
        r == elapsed_spec(from, to),
{
    if to >= from {
        let d: i128 = to as i128 - from as i128;
        d as u64
    } else {
        0
    }
}

/// Abstract content of an execution scope.
pub struct ScopeView {
    /// Associated task.
    pub task_id: Option<TaskId>,
    /// Associated conversation.
    pub conversation_id: Option<ConversationId>,
    /// Non-indexed metadata.
    pub metadata: JsonView,
}

/// Workflow correlation scope for a routed tool call.
#[derive(Debug, PartialEq, Eq)]
pub struct ToolExecutionScope {
    task_id: Option<TaskId>,
    conversation_id: Option<ConversationId>,
    metadata: JsonValue,
}

impl View for ToolExecutionScope {
    type V = ScopeView;

    closed spec fn view(&self) -> ScopeView {
        ScopeView {
            task_id: self.task_id,
            conversation_id: self.conversation_id,
            metadata: self.metadata@,
        }
    }
}

impl ToolExecutionScope {
    /// Creates an empty execution scope: no task, no conversation, `null`
    /// metadata.
    pub fn new() -> (r: Self)
        ensures
            r@ == (ScopeView { task_id: None, conversation_id: None, metadata: JsonView::Null }),
    {
        ToolExecutionScope { task_id: None, conversation_id: None, metadata: JsonValue::Null }
    }

    /// Associates a task with the tool call.
    pub fn with_task_id(self, task_id: TaskId) -> (r: Self)
        ensures
            r@ == (ScopeView { task_id: Some(task_id), ..self@ }),
    {
        let ToolExecutionScope { task_id: _, conversation_id, metadata } = self;
        ToolExecutionScope { task_id: Some(task_id), conversation_id, metadata }
    }

    /// Associates a conversation with the tool call.
    pub fn with_conversation_id(self, conversation_id: ConversationId) -> (r: Self)
        ensures
            r@ == (ScopeView { conversation_id: Some(conversation_id), ..self@ }),
    {
        let ToolExecutionScope { task_id, conversation_id: _, metadata } = self;
        ToolExecutionScope { task_id, conversation_id: Some(conversation_id), metadata }
    }

    /// Attaches additional non-indexed execution metadata.
    pub fn with_metadata(self, metadata: JsonValue) -> (r: Self)
        ensures
            r@ == (ScopeView { metadata: metadata@, ..self@ }),
    {
        let ToolExecutionScope { task_id, conversation_id, metadata: _ } = self;
        ToolExecutionScope { task_id, conversation_id, metadata }
    }

    /// Returns the associated task identifier, if any.
    pub fn task_id(&self) -> (r: Option<TaskId>)
        ensures
            r == self@.task_id,
    {
        self.task_id
    }

    /// Returns the associated conversation identifier, if any.
    pub fn conversation_id(&self) -> (r: Option<ConversationId>)
        ensures
            r == self@.conversation_id,
    {
        self.conversation_id
    }

    /// Returns non-indexed metadata for the tool execution.
    pub fn metadata(&self) -> (r: &JsonValue)
        ensures
            r@ == self@.metadata,
    {
        &self.metadata
    }
}

impl Default for ToolExecutionScope {
    fn default() -> (r: Self)
        ensures
            r@ == (ScopeView { task_id: None, conversation_id: None, metadata: JsonView::Null }),
    {
        Self::new()
    }
}

/// Abstract content of a tool call request.
pub struct RequestView {
    /// Call identifier.
    pub call_id: ToolCallId,
    /// Requested tool name.
    pub tool_name: Seq<char>,
    /// Call parameters.
    pub parameters: JsonView,
    /// Workflow scope.
    pub execution_scope: ScopeView,
    /// Initiation time, microseconds since the epoch.
    pub initiated_at: i64,
}

/// Inbound request to invoke a tool by name.
#[derive(Debug, PartialEq, Eq)]
pub struct ToolCallRequest {
    call_id: ToolCallId,
    tool_name: String,
    parameters: JsonValue,
    execution_scope: ToolExecutionScope,
    initiated_at: i64,
}

impl View for ToolCallRequest {
    type V = RequestView;

    closed spec fn view(&self) -> RequestView {
        RequestView {
            call_id: self.call_id,
            tool_name: self.tool_name@,
            parameters: self.parameters@,
            execution_scope: self.execution_scope@,
            initiated_at: self.initiated_at,
        }
    }
}

impl ToolCallRequest {
    /// Creates a new tool call request initiated at `now`, with a fresh
    /// random call identifier and an empty scope.
    pub fn new(tool_name: &str, parameters: JsonValue, now: i64) -> (r: Self)
        ensures
            crate::ids::is_v4_uuid(r@.call_id.0),
            r@.tool_name == tool_name@,
            r@.parameters == parameters@,
            r@.execution_scope == (ScopeView {
                task_id: None,
                conversation_id: None,
                metadata: JsonView::Null,
            }),
            r@.initiated_at == now,
    {
        ToolCallRequest {
            call_id: ToolCallId::new(),
            tool_name: tool_name.to_owned(),
            parameters,
            execution_scope: ToolExecutionScope::new(),
            initiated_at: now,
        }
    }

    /// Returns the call identifier.
    pub fn call_id(&self) -> (r: ToolCallId)
        ensures
            r == self@.call_id,
    {
        self.call_id
    }

    /// Returns the requested tool name.
    pub fn tool_name(&self) -> (r: &str)
        ensures
            r@ == self@.tool_name,
    {
        self.tool_name.as_str()
    }

    /// Returns the call parameters.
    pub fn parameters(&self) -> (r: &JsonValue)
        ensures
            r@ == self@.parameters,
    {
        &self.parameters
    }

    /// Returns the workflow correlation scope for the call.
    pub fn execution_scope(&self) -> (r: &ToolExecutionScope)
        ensures
            r@ == self@.execution_scope,
    {
        &self.execution_scope
    }

    /// Returns the initiation timestamp (microseconds since the epoch).
    pub fn initiated_at(&self) -> (r: i64)
        ensures
            r == self@.initiated_at,
    {
        self.initiated_at
    }

    /// Attaches an explicit execution scope to the request.
    pub fn with_execution_scope(self, execution_scope: ToolExecutionScope) -> (r: Self)
        ensures
            r@ == (RequestView { execution_scope: execution_scope@, ..self@ }),
    {
        let ToolCallRequest { call_id, tool_name, parameters, execution_scope: _, initiated_at } =
            self;
        ToolCallRequest { call_id, tool_name, parameters, execution_scope, initiated_at }
    }

    /// Associates a task identifier with the request.
    pub fn with_task_id(self, task_id: TaskId) -> (r: Self)
        ensures
            r@ == (RequestView {
                execution_scope: ScopeView { task_id: Some(task_id), ..self@.execution_scope },
                ..self@
            }),
    {
        let ToolCallRequest { call_id, tool_name, parameters, execution_scope, initiated_at } =
            self;
        ToolCallRequest {
            call_id,
            tool_name,
            parameters,
            execution_scope: execution_scope.with_task_id(task_id),
            initiated_at,
        }
    }

    /// Associates a conversation identifier with the request.
    pub fn with_conversation_id(self, conversation_id: ConversationId) -> (r: Self)
        ensures
            r@ == (RequestView {
                execution_scope: ScopeView {
                    conversation_id: Some(conversation_id),
                    ..self@.execution_scope
                },
                ..self@
            }),
    {
        let ToolCallRequest { call_id, tool_name, parameters, execution_scope, initiated_at } =
            self;
        ToolCallRequest {
            call_id,
            tool_name,
            parameters,
            execution_scope: execution_scope.with_conversation_id(conversation_id),
            initiated_at,
        }
    }
}

/// Abstract outcome of a completed tool call.
pub enum OutcomeView {
    /// Success with the returned content.
    Success(JsonView),
    /// Failure with its error text.
    Failure(Seq<char>),
}

/// Outcome of a completed tool call.
#[derive(Debug, PartialEq, Eq)]
pub enum ToolCallOutcome {
    /// The tool call completed successfully.
    Success {
        /// Content returned by the tool.
        content: JsonValue,
    },
    /// The tool call failed.
    Failure {
        /// Human-readable error description.
        error: String,
    },
}

impl View for ToolCallOutcome {
    type V = OutcomeView;

    open spec fn view(&self) -> OutcomeView {
        match self {
            ToolCallOutcome::Success { content } => OutcomeView::Success(content@),
            ToolCallOutcome::Failure { error } => OutcomeView::Failure(error@),
        }
    }
}

impl ToolCallOutcome {
    /// Returns `true` when the outcome is a success.
    pub fn is_success(&self) -> (r: bool)
        ensures
            r == (self@ is Success),
    {
        match self {
            ToolCallOutcome::Success { .. } => true,
            ToolCallOutcome::Failure { .. } => false,
        }
    }

    /// Returns `true` when the outcome is a failure.
    pub fn is_failure(&self) -> (r: bool)
        ensures
            r == (self@ is Failure),
    {
        match self {
            ToolCallOutcome::Success { .. } => false,
            ToolCallOutcome::Failure { .. } => true,
        }
    }

    /// A deep copy of this outcome.
    pub fn cloned(&self) -> (r: Self)
        ensures
            r@ == self@,
    {
        match self {
            ToolCallOutcome::Success { content } => ToolCallOutcome::Success {
                content: content.cloned(),
            },
            ToolCallOutcome::Failure { error } => ToolCallOutcome::Failure { error: error.clone() },
        }
    }
}

/// Timing metadata for a completed tool call.
#[derive(Debug, Clone, Copy, PartialEq, Eq)]
pub struct ToolCallTiming {
    /// How long the call took, in microseconds.
    pub duration_micros: u64,
    /// When the call completed, microseconds since the epoch.
    pub completed_at: i64,
}

/// Abstract content of a tool call result.
pub struct ResultView {
    /// Call identifier.
    pub call_id: ToolCallId,
    /// Tool name.
    pub tool_name: Seq<char>,
    /// Server that handled the call.
    pub server_id: McpServerId,
    /// Call outcome.
    pub outcome: OutcomeView,
    /// Duration in microseconds.
    pub duration_micros: u64,
    /// Completion time, microseconds since the epoch.
    pub completed_at: i64,
}

/// Completed tool call result with timing and routing metadata.
#[derive(Debug, PartialEq, Eq)]
pub struct ToolCallResult {
    call_id: ToolCallId,
    tool_name: String,
    server_id: McpServerId,
    outcome: ToolCallOutcome,
    duration_micros: u64,
    completed_at: i64,
}

impl View for ToolCallResult {
    type V = ResultView;

    closed spec fn view(&self) -> ResultView {
        ResultView {
            call_id: self.call_id,
            tool_name: self.tool_name@,
            server_id: self.server_id,
            outcome: self.outcome@,
            duration_micros: self.duration_micros,
            completed_at: self.completed_at,
        }
    }
}

impl ToolCallResult {
    /// Creates a tool call result from a request, server, outcome, and
    /// timing metadata.
    pub fn from_request(
        request: &ToolCallRequest,
        server_id: McpServerId,
        outcome: ToolCallOutcome,
        timing: ToolCallTiming,
    ) -> (r: Self)
        ensures
            r@ == (ResultView {
                call_id: request@.call_id,
                tool_name: request@.tool_name,
                server_id,
                outcome: outcome@,
                duration_micros: timing.duration_micros,
                completed_at: timing.completed_at,
            }),
    {
        ToolCallResult {
            call_id: request.call_id(),
            tool_name: request.tool_name().to_owned(),
            server_id,
            outcome,
            duration_micros: timing.duration_micros,
            completed_at: timing.completed_at,
        }
    }

    /// Returns the call identifier.
    pub fn call_id(&self) -> (r: ToolCallId)
        ensures
            r == self@.call_id,
    {
        self.call_id
    }

    /// Returns the tool name.
    pub fn tool_name(&self) -> (r: &str)
        ensures
            r@ == self@.tool_name,
    {
        self.tool_name.as_str()
    }

    /// Returns the server that handled the call.
    pub fn server_id(&self) -> (r: McpServerId)
        ensures
            r == self@.server_id,
    {
        self.server_id
    }

    /// Returns the call outcome.
    pub fn outcome(&self) -> (r: &ToolCallOutcome)
        ensures
            r@ == self@.outcome,
    {
        &self.outcome
    }

    /// Returns the call duration in microseconds.
    pub fn duration_micros(&self) -> (r: u64)
        ensures
            r == self@.duration_micros,
    {
        self.duration_micros
    }

    /// Returns the completion timestamp (microseconds since the epoch).
    pub fn completed_at(&self) -> (r: i64)
        ensures
            r == self@.completed_at,
    {
        self.completed_at
    }

    /// A deep copy of this result.
    pub fn cloned(&self) -> (r: Self)
        ensures
            r@ == self@,
    {
        ToolCallResult {
            call_id: self.call_id,
            tool_name: self.tool_name.clone(),
            server_id: self.server_id,
            outcome: self.outcome.cloned(),
            duration_micros: self.duration_micros,
            completed_at: self.completed_at,
        }
    }
}

/// Abstract content of an audit record.
pub struct AuditView {
    /// Audit record identifier.
    pub id: u128,
    /// Originating call.
    pub call_id: ToolCallId,
    /// Tool name.
    pub tool_name: Seq<char>,
    /// Server that handled (or would have handled) the call.
    pub server_id: McpServerId,
    /// Call parameters.
    pub parameters: JsonView,
    /// Outcome.
    pub outcome: OutcomeView,
    /// Duration in microseconds.
    pub duration_micros: u64,
    /// Initiation time.
    pub initiated_at: i64,
    /// Completion time.
    pub completed_at: i64,
    /// Object store path of captured stderr, if any.
    pub stderr_log_path: Option<Seq<char>>,
}

/// Immutable audit trail entry for a tool call invocation.
#[derive(Debug, PartialEq, Eq)]
pub struct ToolCallAuditRecord {
    id: u128,
    call_id: ToolCallId,
    tool_name: String,
    server_id: McpServerId,
    parameters: JsonValue,
    outcome: ToolCallOutcome,
    duration_micros: u64,
    initiated_at: i64,
    completed_at: i64,
    stderr_log_path: Option<String>,
}

impl View for ToolCallAuditRecord {
    type V = AuditView;

    closed spec fn view(&self) -> AuditView {
        AuditView {
            id: self.id,
            call_id: self.call_id,
            tool_name: self.tool_name@,
            server_id: self.server_id,
            parameters: self.parameters@,
            outcome: self.outcome@,
            duration_micros: self.duration_micros,
            initiated_at: self.initiated_at,
            completed_at: self.completed_at,
            stderr_log_path: crate::health::opt_view(self.stderr_log_path),
        }
    }
}

impl ToolCallAuditRecord {
    /// Builds an audit record from a completed tool call result and the
    /// request parameters, with a fresh random identifier.
    pub fn from_result(result: &ToolCallResult, parameters: JsonValue, initiated_at: i64) -> (r:
        Self)
        ensures
            crate::ids::is_v4_uuid(r@.id),
            r@.call_id == result@.call_id,
            r@.tool_name == result@.tool_name,
            r@.server_id == result@.server_id,
            r@.parameters == parameters@,
            r@.outcome == result@.outcome,
            r@.duration_micros == result@.duration_micros,
            r@.initiated_at == initiated_at,
            r@.completed_at == result@.completed_at,
            r@.stderr_log_path is None,
    {
        ToolCallAuditRecord {
            id: crate::ids::random_uuid(),
            call_id: result.call_id(),
            tool_name: result.tool_name().to_owned(),
            server_id: result.server_id(),
            parameters,
            outcome: result.outcome().cloned(),
            duration_micros: result.duration_micros(),
            initiated_at,
            completed_at: result.completed_at(),
            stderr_log_path: None,
        }
    }

    /// Builds an audit record for a call rejected before execution
    /// (unavailable tool, schema validation failure, policy denial); the
    /// outcome is a failure carrying `error`, the text of the rejection.
    pub fn for_rejection(
        request: &ToolCallRequest,
        server_id: McpServerId,
        error: &str,
        completed_at: i64,
    ) -> (r: Self)
        ensures
            crate::ids::is_v4_uuid(r@.id),
            r@.call_id == request@.call_id,
            r@.tool_name == request@.tool_name,
            r@.server_id == server_id,
            r@.parameters == request@.parameters,
            r@.outcome == OutcomeView::Failure(error@),
            r@.duration_micros == elapsed_spec(request@.initiated_at, completed_at),
            r@.initiated_at == request@.initiated_at,
            r@.completed_at == completed_at,
            r@.stderr_log_path is None,
    {
        ToolCallAuditRecord {
            id: crate::ids::random_uuid(),
            call_id: request.call_id(),
            tool_name: request.tool_name().to_owned(),
            server_id,
            parameters: request.parameters().cloned(),
            outcome: ToolCallOutcome::Failure { error: error.to_owned() },
            duration_micros: elapsed_micros(request.initiated_at(), completed_at),
            initiated_at: request.initiated_at(),
            completed_at,
            stderr_log_path: None,
        }
    }

    /// Attaches the object store path of captured stderr output.
    pub fn with_stderr_log_path(self, path: &str) -> (r: Self)
        ensures
            r@ == (AuditView { stderr_log_path: Some(path@), ..self@ }),
    {
        let mut s = self;
        s.stderr_log_path = Some(path.to_owned());
        s
    }

    /// Returns the audit record identifier (a UUID value).
    pub fn id(&self) -> (r: u128)
        ensures
            r == self@.id,
    {
        self.id
    }

    /// Returns the originating call identifier.
    pub fn call_id(&self) -> (r: ToolCallId)
        ensures
            r == self@.call_id,
    {
        self.call_id
    }

    /// Returns the tool name.
    pub fn tool_name(&self) -> (r: &str)
        ensures
            r@ == self@.tool_name,
    {
        self.tool_name.as_str()
    }

    /// Returns the server that handled the call.
    pub fn server_id(&self) -> (r: McpServerId)
        ensures
            r == self@.server_id,
    {
        self.server_id
    }

    /// Returns the call parameters.
    pub fn parameters(&self) -> (r: &JsonValue)
        ensures
            r@ == self@.parameters,
    {
        &self.parameters
    }

    /// Returns the call outcome.
    pub fn outcome(&self) -> (r: &ToolCallOutcome)
        ensures
            r@ == self@.outcome,
    {
        &self.outcome
    }

    /// Returns the call duration in microseconds.
    pub fn duration_micros(&self) -> (r: u64)
        ensures
            r == self@.duration_micros,
    {
        self.duration_micros
    }

    /// Returns the initiation timestamp.
    pub fn initiated_at(&self) -> (r: i64)
        ensures
            r == self@.initiated_at,
    {
        self.initiated_at
    }

    /// Returns the completion timestamp.
    pub fn completed_at(&self) -> (r: i64)
        ensures
            r == self@.completed_at,
    {
        self.completed_at
    }

    /// Returns the object store path of captured stderr, if any.
    pub fn stderr_log_path(&self) -> (r: Option<&str>)
        ensures
            match r {
                Some(p) => self@.stderr_log_path == Some(p@),
                None => self@.stderr_log_path is None,
            },
    {
        match &self.stderr_log_path {
            Some(p) => Some(p.as_str()),
            None => None,
        }
    }

    /// A deep copy of this record.
    pub fn cloned(&self) -> (r: Self)
        ensures
            r@ == self@,
    {
        let stderr_log_path = match &self.stderr_log_path {
            Some(p) => Some(p.clone()),
            None => None,
        };
        ToolCallAuditRecord {
            id: self.id,
            call_id: self.call_id,
            tool_name: self.tool_name.clone(),
            server_id: self.server_id,
            parameters: self.parameters.cloned(),
            outcome: self.outcome.cloned(),
            duration_micros: self.duration_micros,
            initiated_at: self.initiated_at,
            completed_at: self.completed_at,
            stderr_log_path,
        }
    }
}

} // verus!
