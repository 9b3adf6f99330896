//! Verified core of an MCP server registry: server identity and naming,
//! transport settings, lifecycle state, tool catalog bookkeeping, call
//! routing decisions, audit redaction, and stderr log retention.

pub mod assoc;
pub mod call_flow;
pub mod catalog;
pub mod catalog_rows;
pub mod discovery;
pub mod discovery_flow;
pub mod error;
pub mod governance;
pub mod health;
pub mod host;
pub mod ids;
pub mod json;
pub mod lifecycle;
pub mod lifecycle_flow;
pub mod lock_key;
pub mod log_capture;
pub mod log_store;
pub mod redact;
pub mod registry;
pub mod routing;
pub mod rows;
pub mod runtime;
pub mod server;
pub mod summary;
pub mod sweep_flow;
pub mod tenants;
pub mod text;
pub mod tool;
pub mod transport;
pub mod validation;
pub mod worker;
