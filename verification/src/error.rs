//! Error types for domain validation and parsing.

use crate::ids::{uuid_text_spec, McpServerId, ToolCallId};
use crate::text::{decimal_spec, push_decimal, push_str, push_uuid, string_from_chars};
use vstd::prelude::*;

verus! {

/// Errors returned while constructing tool registry domain values.
#[derive(Debug, Clone, PartialEq, Eq)]
pub enum ToolRegistryDomainError {
    /// The server name is empty after trimming.
    EmptyServerName,
    /// The server name contains characters outside `[a-z0-9_]`.
    InvalidServerName(String),
    /// The server name exceeds the 100-character storage limit.
    ServerNameTooLong(String),
    /// The STDIO command is empty.
    EmptyStdioCommand,
    /// The STDIO working directory is empty after trimming.
    EmptyWorkingDirectory,
    /// The HTTP+SSE base URL is empty.
    EmptyHttpSseBaseUrl,
    /// The HTTP+SSE base URL does not have an `http://` or `https://` prefix.
    InvalidHttpSseBaseUrl(String),
    /// A tool definition name is empty after trimming.
    EmptyToolName,
    /// A tool definition description is empty after trimming.
    EmptyToolDescription,
    /// Transitioning between two lifecycle states is invalid.
    InvalidLifecycleTransition {
        /// Current lifecycle state.
        from: String,
        /// Requested target lifecycle state.
        to: String,
    },
    /// Tool queries require the server lifecycle state to be `running`.
    ToolQueryRequiresRunning {
        /// Server identifier.
        server_id: McpServerId,
        /// Lifecycle state in canonical string form.
        state: String,
    },
    /// No tool with the given name exists in the catalog.
    ToolNotFound(String),
    /// The tool exists but is not currently available for invocation.
    ToolUnavailable {
        /// Name of the unavailable tool.
        tool_name: String,
        /// Server hosting the tool.
        server_id: McpServerId,
    },
    /// Tool call parameters do not satisfy the tool's input schema.
    SchemaValidationFailed {
        /// Name of the tool whose schema was violated.
        tool_name: String,
        /// Human-readable validation failure description.
        reason: String,
    },
    /// A policy enforcement point denied the tool call.
    PolicyDenied {
        /// Name of the denied tool.
        tool_name: String,
        /// Human-readable denial reason.
        reason: String,
    },
    /// The tool call timed out before completion.
    ToolCallTimeout {
        /// Name of the timed-out tool.
        tool_name: String,
        /// Identifier of the timed-out call.
        call_id: ToolCallId,
    },
    /// Multiple servers advertise a tool with the same name.
    AmbiguousToolName {
        /// The conflicting tool name.
        tool_name: String,
        /// Number of servers advertising this tool name.
        server_count: usize,
    },
}

/// Error returned while parsing lifecycle state from persistence.
#[derive(Debug, Clone, PartialEq, Eq)]
pub struct ParseMcpServerLifecycleStateError(pub String);

/// Error returned while parsing health status from persistence.
#[derive(Debug, Clone, PartialEq, Eq)]
pub struct ParseMcpServerHealthStatusError(pub String);

/// The human-readable text of a domain error.
pub open spec fn domain_error_text(e: ToolRegistryDomainError) -> Seq<char> {
    match e {
        ToolRegistryDomainError::EmptyServerName => "MCP server name must not be empty"@,
        ToolRegistryDomainError::InvalidServerName(n) => "MCP server name '"@ + n@
            + "' contains invalid characters (only lowercase alphanumeric and underscores allowed)"@,
        ToolRegistryDomainError::ServerNameTooLong(n) =>
            "MCP server name exceeds 100 character limit: "@ + n@,
        ToolRegistryDomainError::EmptyStdioCommand => "STDIO command must not be empty"@,
        ToolRegistryDomainError::EmptyWorkingDirectory =>
            "STDIO working directory must not be empty when provided"@,
        ToolRegistryDomainError::EmptyHttpSseBaseUrl => "HTTP+SSE base URL must not be empty"@,
        ToolRegistryDomainError::InvalidHttpSseBaseUrl(u) => "HTTP+SSE base URL '"@ + u@
            + "' must start with 'http://' or 'https://'"@,
        ToolRegistryDomainError::EmptyToolName => "tool name must not be empty"@,
        ToolRegistryDomainError::EmptyToolDescription => "tool description must not be empty"@,
        ToolRegistryDomainError::InvalidLifecycleTransition { from, to } =>
            "invalid MCP server lifecycle transition: "@ + from@ + " -> "@ + to@,
        ToolRegistryDomainError::ToolQueryRequiresRunning { server_id, state } => "MCP server "@
            + uuid_text_spec(server_id.0) + " is not running (current state: "@ + state@ + ")"@,
        ToolRegistryDomainError::ToolNotFound(n) => "tool not found: "@ + n@,
        ToolRegistryDomainError::ToolUnavailable { tool_name, server_id } => "tool '"@ + tool_name@
            + "' on server "@ + uuid_text_spec(server_id.0) + " is unavailable"@,
        ToolRegistryDomainError::SchemaValidationFailed { tool_name, reason } =>
            "schema validation failed for tool '"@ + tool_name@ + "': "@ + reason@,
        ToolRegistryDomainError::PolicyDenied { tool_name, reason } => "policy denied tool call to '"@
            + tool_name@ + "': "@ + reason@,
        ToolRegistryDomainError::ToolCallTimeout { tool_name, call_id } => "tool call to '"@
            + tool_name@ + "' timed out (call_id: "@ + uuid_text_spec(call_id.0) + ")"@,
        ToolRegistryDomainError::AmbiguousToolName { tool_name, server_count } =>
            "ambiguous tool name '"@ + tool_name@ + "' found on "@ + decimal_spec(server_count as nat)
                + " servers"@,
    }
}

impl ToolRegistryDomainError {
    /// The human-readable text of this error.
    pub fn message(&self) -> (r: String)
        ensures
            r@ == domain_error_text(*self),
    {
        let mut v: Vec<char> = Vec::new();
        match self {
            ToolRegistryDomainError::EmptyServerName => push_str(&mut v, "MCP server name must not be empty"),
            ToolRegistryDomainError::InvalidServerName(n) => {
                push_str(&mut v, "MCP server name '");
                push_str(&mut v, n.as_str());
                push_str(&mut v, "' contains invalid characters (only lowercase alphanumeric and underscores allowed)");
            },
            ToolRegistryDomainError::ServerNameTooLong(n) => {
                push_str(&mut v, "MCP server name exceeds 100 character limit: ");
                push_str(&mut v, n.as_str());
            },
            ToolRegistryDomainError::EmptyStdioCommand => push_str(&mut v, "STDIO command must not be empty"),
            ToolRegistryDomainError::EmptyWorkingDirectory => push_str(&mut v, "STDIO working directory must not be empty when provided"),
            ToolRegistryDomainError::EmptyHttpSseBaseUrl => push_str(&mut v, "HTTP+SSE base URL must not be empty"),
            ToolRegistryDomainError::InvalidHttpSseBaseUrl(u) => {
                push_str(&mut v, "HTTP+SSE base URL '");
                push_str(&mut v, u.as_str());
                push_str(&mut v, "' must start with 'http://' or 'https://'");
            },
            ToolRegistryDomainError::EmptyToolName => push_str(&mut v, "tool name must not be empty"),
            ToolRegistryDomainError::EmptyToolDescription => push_str(&mut v, "tool description must not be empty"),
            ToolRegistryDomainError::InvalidLifecycleTransition { from, to } => {
                push_str(&mut v, "invalid MCP server lifecycle transition: ");
                push_str(&mut v, from.as_str());
                push_str(&mut v, " -> ");
                push_str(&mut v, to.as_str());
            },
            ToolRegistryDomainError::ToolQueryRequiresRunning { server_id, state } => {
                push_str(&mut v, "MCP server ");
                push_uuid(&mut v, server_id.0);
                push_str(&mut v, " is not running (current state: ");
                push_str(&mut v, state.as_str());
                push_str(&mut v, ")");
            },
            ToolRegistryDomainError::ToolNotFound(n) => {
                push_str(&mut v, "tool not found: ");
                push_str(&mut v, n.as_str());
            },
            ToolRegistryDomainError::ToolUnavailable { tool_name, server_id } => {
                push_str(&mut v, "tool '");
                push_str(&mut v, tool_name.as_str());
                push_str(&mut v, "' on server ");
                push_uuid(&mut v, server_id.0);
                push_str(&mut v, " is unavailable");
            },
            ToolRegistryDomainError::SchemaValidationFailed { tool_name, reason } => {
                push_str(&mut v, "schema validation failed for tool '");
                push_str(&mut v, tool_name.as_str());
                push_str(&mut v, "': ");
                push_str(&mut v, reason.as_str());
            },
            ToolRegistryDomainError::PolicyDenied { tool_name, reason } => {
                push_str(&mut v, "policy denied tool call to '");
                push_str(&mut v, tool_name.as_str());
                push_str(&mut v, "': ");
                push_str(&mut v, reason.as_str());
            },
            ToolRegistryDomainError::ToolCallTimeout { tool_name, call_id } => {
                push_str(&mut v, "tool call to '");
                push_str(&mut v, tool_name.as_str());
                push_str(&mut v, "' timed out (call_id: ");
                push_uuid(&mut v, call_id.0);
                push_str(&mut v, ")");
            },
            ToolRegistryDomainError::AmbiguousToolName { tool_name, server_count } => {
                push_str(&mut v, "ambiguous tool name '");
                push_str(&mut v, tool_name.as_str());
                push_str(&mut v, "' found on ");
                push_decimal(&mut v, *server_count as u64);
                push_str(&mut v, " servers");
            },
        }
        assert(v@ =~= domain_error_text(*self));
        string_from_chars(v.as_slice())
    }
}

impl ParseMcpServerLifecycleStateError {
    /// The human-readable text of this error.
    pub fn message(&self) -> (r: String)
        ensures
            r@ == "unknown MCP server lifecycle state: "@ + self.0@,
    {
        let mut v: Vec<char> = Vec::new();
        push_str(&mut v, "unknown MCP server lifecycle state: ");
        push_str(&mut v, self.0.as_str());
        string_from_chars(v.as_slice())
    }
}

impl ParseMcpServerHealthStatusError {
    /// The human-readable text of this error.
    pub fn message(&self) -> (r: String)
        ensures
            r@ == "unknown MCP server health status: "@ + self.0@,
    {
        let mut v: Vec<char> = Vec::new();
        push_str(&mut v, "unknown MCP server health status: ");
        push_str(&mut v, self.0.as_str());
        string_from_chars(v.as_slice())
    }
}

} // verus!
