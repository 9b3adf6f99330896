//! Results and errors of the runtime host that starts MCP servers and
//! invokes their tools.

use crate::ids::{uuid_text_spec, McpServerId};
use crate::json::JsonValue;
use crate::text::{chars_of, push_all, string_from_chars};
use vstd::prelude::*;

verus! {

/// Result of starting an MCP server, including captured stderr.
#[derive(Debug, Clone, Default)]
pub struct StartHostResult {
    /// Stderr output captured during server startup, if any.
    pub stderr_output: Option<Vec<u8>>,
}

/// Result of a tool call, including content and captured stderr.
#[derive(Debug)]
pub struct ToolCallHostResult {
    /// Content returned by the tool.
    pub content: JsonValue,
    /// Stderr output captured during the tool call, if any.
    pub stderr_output: Option<Vec<u8>>,
}

/// Errors returned by runtime MCP host adapters.
#[derive(Debug, Clone, PartialEq, Eq)]
pub enum McpServerHostError {
    /// The server is not currently running.
    NotRunning(McpServerId),
    /// The server transport is unsupported by the host adapter.
    UnsupportedTransport {
        /// Server identifier.
        server_id: McpServerId,
        /// Reason string.
        reason: String,
    },
    /// A tool call invocation failed.
    ToolCallFailed {
        /// Server identifier.
        server_id: McpServerId,
        /// Name of the tool that failed.
        tool_name: String,
        /// Reason for the failure.
        reason: String,
    },
    /// A tool call timed out.
    ToolCallTimeout {
        /// Server identifier.
        server_id: McpServerId,
        /// Name of the timed-out tool.
        tool_name: String,
    },
    /// The MCP host process failed to spawn.
    ProcessSpawnFailed {
        /// Server identifier.
        server_id: McpServerId,
        /// Reason string.
        reason: String,
    },
    /// Communication with the MCP host process failed.
    CommunicationError {
        /// Server identifier.
        server_id: McpServerId,
        /// Reason string.
        reason: String,
    },
    /// The MCP protocol exchange failed.
    ProtocolError {
        /// Server identifier.
        server_id: McpServerId,
        /// Reason string.
        reason: String,
    },
}

/// The human-readable text of a host error.
pub open spec fn host_error_text(e: McpServerHostError) -> Seq<char> {
    match e {
        McpServerHostError::NotRunning(id) => "MCP server "@ + uuid_text_spec(id.0)
            + " is not running"@,
        McpServerHostError::UnsupportedTransport { server_id, reason } =>
            "unsupported transport for MCP server "@ + uuid_text_spec(server_id.0) + ": "@ + reason@,
        McpServerHostError::ToolCallFailed { server_id, tool_name, reason } => "tool call to '"@
            + tool_name@ + "' failed on server "@ + uuid_text_spec(server_id.0) + ": "@ + reason@,
        McpServerHostError::ToolCallTimeout { server_id, tool_name } => "tool call to '"@
            + tool_name@ + "' timed out on server "@ + uuid_text_spec(server_id.0),
        McpServerHostError::ProcessSpawnFailed { server_id, reason } =>
            "MCP host process failed to spawn for server "@ + uuid_text_spec(server_id.0) + ": "@
                + reason@,
        McpServerHostError::CommunicationError { server_id, reason } =>
            "MCP host communication error for server "@ + uuid_text_spec(server_id.0) + ": "@
                + reason@,
        McpServerHostError::ProtocolError { server_id, reason } => "MCP protocol error for server "@
            + uuid_text_spec(server_id.0) + ": "@ + reason@,
    }
}

fn push_str(v: &mut Vec<char>, s: &str)
    ensures
        final(v)@ == old(v)@ + s@,
{
    let c = chars_of(s);
    push_all(v, c.as_slice());
}

fn push_id(v: &mut Vec<char>, id: McpServerId)
    ensures
        final(v)@ == old(v)@ + uuid_text_spec(id.0),
{
    let c = crate::ids::uuid_text_chars(id.0);
    push_all(v, c.as_slice());
}

impl McpServerHostError {
    /// The human-readable text of this error.
    pub fn message(&self) -> (r: String)
        ensures
            r@ == host_error_text(*self),
    {
        let mut v: Vec<char> = Vec::new();
        match self {
            McpServerHostError::NotRunning(id) => {
                push_str(&mut v, "MCP server ");
                push_id(&mut v, *id);
                push_str(&mut v, " is not running");
            },
            McpServerHostError::UnsupportedTransport { server_id, reason } => {
                push_str(&mut v, "unsupported transport for MCP server ");
                push_id(&mut v, *server_id);
                push_str(&mut v, ": ");
                push_str(&mut v, reason.as_str());
            },
            McpServerHostError::ToolCallFailed { server_id, tool_name, reason } => {
                push_str(&mut v, "tool call to '");
                push_str(&mut v, tool_name.as_str());
                push_str(&mut v, "' failed on server ");
                push_id(&mut v, *server_id);
                push_str(&mut v, ": ");
                push_str(&mut v, reason.as_str());
            },
            McpServerHostError::ToolCallTimeout { server_id, tool_name } => {
                push_str(&mut v, "tool call to '");
                push_str(&mut v, tool_name.as_str());
                push_str(&mut v, "' timed out on server ");
                push_id(&mut v, *server_id);
            },
            McpServerHostError::ProcessSpawnFailed { server_id, reason } => {
                push_str(&mut v, "MCP host process failed to spawn for server ");
                push_id(&mut v, *server_id);
                push_str(&mut v, ": ");
                push_str(&mut v, reason.as_str());
            },
            McpServerHostError::CommunicationError { server_id, reason } => {
                push_str(&mut v, "MCP host communication error for server ");
                push_id(&mut v, *server_id);
                push_str(&mut v, ": ");
                push_str(&mut v, reason.as_str());
            },
            McpServerHostError::ProtocolError { server_id, reason } => {
                push_str(&mut v, "MCP protocol error for server ");
                push_id(&mut v, *server_id);
                push_str(&mut v, ": ");
                push_str(&mut v, reason.as_str());
            },
        }
        assert(v@ =~= host_error_text(*self));
        string_from_chars(v.as_slice())
    }
}

} // verus!
