//! Stderr log capture metadata and the retention policy that governs log
//! truncation, rotation and expiry.
//!
//! Times are microseconds since the Unix epoch (UTC) and durations are
//! microseconds.

use crate::ids::{uuid_text_spec, LogEntryId, McpServerId, TenantId, ToolCallId};
use crate::text::{push_str, push_uuid, string_from_chars};
use vstd::prelude::*;

verus! {

/// Default maximum bytes per individual log blob (10 MiB).
pub const DEFAULT_MAX_BYTES_PER_LOG: u64 = 10485760;

/// Default maximum number of retained logs per server.
pub const DEFAULT_MAX_LOGS_PER_SERVER: usize = 100;

/// Default retention period: seven days, in microseconds.
pub const DEFAULT_RETENTION_PERIOD_MICROS: i64 = 604800000000;

/// Classifies the lifecycle point at which stderr was captured.
#[derive(Debug, Clone, Copy, PartialEq, Eq)]
pub enum LogEntryKind {
    /// Stderr captured during MCP server startup.
    ServerStartup,
    /// Stderr captured during a specific tool call.
    ToolCall {
        /// The tool call that produced this stderr output.
        call_id: ToolCallId,
    },
}

/// The object path segment of a kind: `startup`, or `call/` and the call
/// identifier.
pub open spec fn kind_segment(kind: LogEntryKind) -> Seq<char> {
    match kind {
        LogEntryKind::ServerStartup => "startup"@,
        LogEntryKind::ToolCall { call_id } => "call/"@ + uuid_text_spec(call_id.0),
    }
}

impl LogEntryKind {
    /// Returns the path segment for this kind.
    pub fn path_segment(&self) -> (r: String)
        ensures
            r@ == kind_segment(*self),
    {
        let mut v: Vec<char> = Vec::new();
        match self {
            LogEntryKind::ServerStartup => push_str(&mut v, "startup"),
            LogEntryKind::ToolCall { call_id } => {
                push_str(&mut v, "call/");
                push_uuid(&mut v, call_id.0);
            },
        }
        assert(v@ =~= kind_segment(*self));
        string_from_chars(v.as_slice())
    }
}

/// Configurable policy for stderr log rotation and retention.
#[derive(Debug, Clone, Copy, PartialEq, Eq)]
pub struct LogRetentionPolicy {
    /// Maximum size in bytes for a single log blob before truncation.
    pub max_bytes_per_log: u64,
    /// Maximum number of retained log entries per server.
    pub max_logs_per_server: usize,
    /// Time after capture at which an entry expires, in microseconds.
    pub retention_period: i64,
}

impl Default for LogRetentionPolicy {
    fn default() -> (r: Self)
        ensures
            r.max_bytes_per_log == DEFAULT_MAX_BYTES_PER_LOG,
            r.max_logs_per_server == DEFAULT_MAX_LOGS_PER_SERVER,
            r.retention_period == DEFAULT_RETENTION_PERIOD_MICROS,
    {
        LogRetentionPolicy {
            max_bytes_per_log: DEFAULT_MAX_BYTES_PER_LOG,
            max_logs_per_server: DEFAULT_MAX_LOGS_PER_SERVER,
            retention_period: DEFAULT_RETENTION_PERIOD_MICROS,
        }
    }
}

/// The clock reading, retention policy and tenant used to derive
/// timestamps, expiry and object paths of a log capture.
#[derive(Debug)]
pub struct LogCaptureContext<'a> {
    /// Current time, microseconds since the epoch.
    pub now: i64,
    /// Retention policy governing log expiry.
    pub retention: &'a LogRetentionPolicy,
    /// Tenant that owns the capture.
    pub tenant_id: TenantId,
}

/// The object store path of a log blob:
/// `tool_logs/{tenant}/{server}/{kind segment}/{id}.stderr`.
pub open spec fn object_path_spec(tenant: TenantId, server: McpServerId, kind: LogEntryKind, id: LogEntryId) -> Seq<char> {
    "tool_logs/"@ + uuid_text_spec(tenant.0) + "/"@ + uuid_text_spec(server.0) + "/"@ + kind_segment(kind)
        + "/"@ + uuid_text_spec(id.0) + ".stderr"@
}

/// Abstract content of log entry metadata.
pub struct LogMetaView {
    /// Entry identifier.
    pub id: LogEntryId,
    /// Server that produced the log.
    pub server_id: McpServerId,
    /// Capture point.
    pub kind: LogEntryKind,
    /// Object store path.
    pub object_path: Seq<char>,
    /// Captured size in bytes.
    pub byte_count: u64,
    /// Capture time.
    pub captured_at: i64,
    /// Expiry time.
    pub expires_at: i64,
}

/// All fields needed to reconstruct [`LogEntryMetadata`] from persisted
/// storage.
#[derive(Debug, PartialEq, Eq)]
pub struct PersistedLogEntryData {
    /// Entry identifier.
    pub id: LogEntryId,
    /// Server that produced the log.
    pub server_id: McpServerId,
    /// Capture point.
    pub kind: LogEntryKind,
    /// Object store path.
    pub object_path: String,
    /// Captured size in bytes.
    pub byte_count: u64,
    /// Capture time.
    pub captured_at: i64,
    /// Expiry time.
    pub expires_at: i64,
}

/// Metadata for a captured stderr log blob stored in the object store.
#[derive(Debug, PartialEq, Eq)]
pub struct LogEntryMetadata {
    id: LogEntryId,
    server_id: McpServerId,
    kind: LogEntryKind,
    object_path: String,
    byte_count: u64,
    captured_at: i64,
    expires_at: i64,
}

impl View for LogEntryMetadata {
    type V = LogMetaView;

    closed spec fn view(&self) -> LogMetaView {
        LogMetaView {
            id: self.id,
            server_id: self.server_id,
            kind: self.kind,
            object_path: self.object_path@,
            byte_count: self.byte_count,
            captured_at: self.captured_at,
            expires_at: self.expires_at,
        }
    }
}

impl LogEntryMetadata {
    fn build(server_id: McpServerId, kind: LogEntryKind, byte_count: u64, ctx: &LogCaptureContext<'_>) -> (r: Self)
        requires
            i64::MIN <= ctx.now + ctx.retention.retention_period <= i64::MAX,
        ensures
            crate::ids::is_v4_uuid(r@.id.0),
            r@.server_id == server_id,
            r@.kind == kind,
            r@.object_path == object_path_spec(ctx.tenant_id, server_id, kind, r@.id),
            r@.byte_count == byte_count,
            r@.captured_at == ctx.now,
            r@.expires_at == ctx.now + ctx.retention.retention_period,
    {
        let id = LogEntryId::new();
        let mut v: Vec<char> = Vec::new();
        push_str(&mut v, "tool_logs/");
        push_uuid(&mut v, ctx.tenant_id.0);
        push_str(&mut v, "/");
        push_uuid(&mut v, server_id.0);
        push_str(&mut v, "/");
        let segment = kind.path_segment();
        push_str(&mut v, segment.as_str());
        push_str(&mut v, "/");
        push_uuid(&mut v, id.0);
        push_str(&mut v, ".stderr");
        assert(v@ =~= object_path_spec(ctx.tenant_id, server_id, kind, id));
        let captured_at = ctx.now;
        let expires_at = captured_at + ctx.retention.retention_period;
        LogEntryMetadata {
            id,
            server_id,
            kind,
            object_path: string_from_chars(v.as_slice()),
            byte_count,
            captured_at,
            expires_at,
        }
    }

    /// Metadata for a server startup stderr capture, with a fresh random
    /// identifier, captured now and expiring after the retention period.
    pub fn for_startup(server_id: McpServerId, byte_count: u64, ctx: &LogCaptureContext<'_>) -> (r: Self)
        requires
            i64::MIN <= ctx.now + ctx.retention.retention_period <= i64::MAX,
        ensures
            crate::ids::is_v4_uuid(r@.id.0),
            r@.server_id == server_id,
            r@.kind == LogEntryKind::ServerStartup,
            r@.object_path == object_path_spec(ctx.tenant_id, server_id, LogEntryKind::ServerStartup, r@.id),
            r@.byte_count == byte_count,
            r@.captured_at == ctx.now,
            r@.expires_at == ctx.now + ctx.retention.retention_period,
    {
        Self::build(server_id, LogEntryKind::ServerStartup, byte_count, ctx)
    }

    /// Metadata for a tool call stderr capture, with a fresh random
    /// identifier, captured now and expiring after the retention period.
    pub fn for_tool_call(server_id: McpServerId, call_id: ToolCallId, byte_count: u64, ctx: &LogCaptureContext<'_>) -> (r: Self)
        requires
            i64::MIN <= ctx.now + ctx.retention.retention_period <= i64::MAX,
        ensures
            crate::ids::is_v4_uuid(r@.id.0),
            r@.server_id == server_id,
            r@.kind == (LogEntryKind::ToolCall { call_id }),
            r@.object_path == object_path_spec(ctx.tenant_id, server_id, LogEntryKind::ToolCall { call_id }, r@.id),
            r@.byte_count == byte_count,
            r@.captured_at == ctx.now,
            r@.expires_at == ctx.now + ctx.retention.retention_period,
    {
        Self::build(server_id, LogEntryKind::ToolCall { call_id }, byte_count, ctx)
    }

    /// Reconstructs metadata from persisted storage.
    pub fn from_persisted(data: PersistedLogEntryData) -> (r: Self)
        ensures
            r@ == (LogMetaView {
                id: data.id,
                server_id: data.server_id,
                kind: data.kind,
                object_path: data.object_path@,
                byte_count: data.byte_count,
                captured_at: data.captured_at,
                expires_at: data.expires_at,
            }),
    {
        LogEntryMetadata {
            id: data.id,
            server_id: data.server_id,
            kind: data.kind,
            object_path: data.object_path,
            byte_count: data.byte_count,
            captured_at: data.captured_at,
            expires_at: data.expires_at,
        }
    }

    /// Returns the log entry identifier.
    pub fn id(&self) -> (r: LogEntryId)
        ensures
            r == self@.id,
    {
        self.id
    }

    /// Returns the server that produced this log.
    pub fn server_id(&self) -> (r: McpServerId)
        ensures
            r == self@.server_id,
    {
        self.server_id
    }

    /// Returns the lifecycle point classification.
    pub fn kind(&self) -> (r: &LogEntryKind)
        ensures
            *r == self@.kind,
    {
        &self.kind
    }

    /// Returns the object store path where the log blob is stored.
    pub fn object_path(&self) -> (r: &str)
        ensures
            r@ == self@.object_path,
    {
        self.object_path.as_str()
    }

    /// Returns the size of the captured log in bytes.
    pub fn byte_count(&self) -> (r: u64)
        ensures
            r == self@.byte_count,
    {
        self.byte_count
    }

    /// Returns the capture timestamp.
    pub fn captured_at(&self) -> (r: i64)
        ensures
            r == self@.captured_at,
    {
        self.captured_at
    }

    /// Returns the expiry timestamp.
    pub fn expires_at(&self) -> (r: i64)
        ensures
            r == self@.expires_at,
    {
        self.expires_at
    }

    /// A deep copy of this metadata.
    pub fn cloned(&self) -> (r: Self)
        ensures
            r@ == self@,
    {
        LogEntryMetadata {
            id: self.id,
            server_id: self.server_id,
            kind: self.kind,
            object_path: self.object_path.clone(),
            byte_count: self.byte_count,
            captured_at: self.captured_at,
            expires_at: self.expires_at,
        }
    }
}

impl LogRetentionPolicy {
    /// Whether the entry has expired at `now`: its expiry lies strictly
    /// before `now`.
    pub fn is_expired(&self, entry: &LogEntryMetadata, now: i64) -> (r: bool)
        ensures
            r == (entry@.expires_at < now),
    {
        entry.expires_at() < now
    }
}

} // verus!
