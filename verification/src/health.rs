//! MCP server health status and timestamped health snapshots.
//!
//! Timestamps throughout the library are microseconds since the Unix epoch,
//! UTC.

use crate::error::ParseMcpServerHealthStatusError;
use crate::text::{ascii_lower_spec, chars_of, string_from_chars, trim_spec};
use vstd::prelude::*;

verus! {

/// Health status of an MCP server.
#[derive(Debug, Clone, Copy, PartialEq, Eq, Hash)]
pub enum McpServerHealthStatus {
    /// Health has not been checked yet.
    Unknown,
    /// Server is reachable and healthy.
    Healthy,
    /// Server is reachable but unhealthy.
    Unhealthy,
}

/// Canonical storage text of a health status.
pub open spec fn health_status_text(s: McpServerHealthStatus) -> Seq<char> {
    match s {
        McpServerHealthStatus::Unknown => "unknown"@,
        McpServerHealthStatus::Healthy => "healthy"@,
        McpServerHealthStatus::Unhealthy => "unhealthy"@,
    }
}

/// Compares a character sequence with a string literal.
pub fn chars_eq_str(v: &[char], lit: &str) -> (r: bool)
    ensures
        r == (v@ == lit@),
{
    let l = chars_of(lit);
    crate::text::chars_eq(v, l.as_slice())
}

impl McpServerHealthStatus {
    /// Returns the canonical storage representation.
    pub fn as_str(self) -> (r: &'static str)
        ensures
            r@ == health_status_text(self),
    {
        match self {
            McpServerHealthStatus::Unknown => "unknown",
            McpServerHealthStatus::Healthy => "healthy",
            McpServerHealthStatus::Unhealthy => "unhealthy",
        }
    }

    /// Parses a stored status; surrounding whitespace and ASCII case are
    /// ignored.
    pub fn parse(value: &str) -> (r: Result<Self, ParseMcpServerHealthStatusError>)
        ensures
            ({
                let n = ascii_lower_spec(trim_spec(value@));
                match r {
                    Ok(s) => health_status_text(s) == n,
                    Err(e) => e.0@ == value@ && forall|s: McpServerHealthStatus|
                        health_status_text(s) != n,
                }
            }),
    {
        let raw = chars_of(value);
        let trimmed = crate::text::trim_chars(raw.as_slice());
        let n = crate::text::ascii_lower_chars(trimmed.as_slice());
        if chars_eq_str(n.as_slice(), "unknown") {
            Ok(McpServerHealthStatus::Unknown)
        } else if chars_eq_str(n.as_slice(), "healthy") {
            Ok(McpServerHealthStatus::Healthy)
        } else if chars_eq_str(n.as_slice(), "unhealthy") {
            Ok(McpServerHealthStatus::Unhealthy)
        } else {
            proof {
                assert forall|s: McpServerHealthStatus| health_status_text(s) != n@ by {
                    match s {
                        McpServerHealthStatus::Unknown => {},
                        McpServerHealthStatus::Healthy => {},
                        McpServerHealthStatus::Unhealthy => {},
                    }
                }
            }
            Err(ParseMcpServerHealthStatusError(string_from_chars(raw.as_slice())))
        }
    }
}

/// Abstract content of a health snapshot.
pub struct HealthSnapshotView {
    /// Reported status.
    pub status: McpServerHealthStatus,
    /// Check time, microseconds since the Unix epoch.
    pub checked_at: i64,
    /// Optional detail message.
    pub message: Option<Seq<char>>,
}

/// Timestamped health snapshot for an MCP server.
#[derive(Debug, Clone, PartialEq, Eq)]
pub struct McpServerHealthSnapshot {
    status: McpServerHealthStatus,
    checked_at: i64,
    message: Option<String>,
}

/// View of an optional string.
pub open spec fn opt_view(o: Option<String>) -> Option<Seq<char>> {
    match o {
        Some(s) => Some(s@),
        None => None,
    }
}

impl View for McpServerHealthSnapshot {
    type V = HealthSnapshotView;

    closed spec fn view(&self) -> HealthSnapshotView {
        HealthSnapshotView {
            status: self.status,
            checked_at: self.checked_at,
            message: opt_view(self.message),
        }
    }
}

impl McpServerHealthSnapshot {
    /// Creates a health snapshot without a message.
    pub fn new(status: McpServerHealthStatus, checked_at: i64) -> (r: Self)
        ensures
            r@ == (HealthSnapshotView { status, checked_at, message: None }),
    {
        McpServerHealthSnapshot { status, checked_at, message: None }
    }

    /// Creates an `unknown` health snapshot.
    pub fn unknown(checked_at: i64) -> (r: Self)
        ensures
            r@ == (HealthSnapshotView {
                status: McpServerHealthStatus::Unknown,
                checked_at,
                message: None,
            }),
    {
        Self::new(McpServerHealthStatus::Unknown, checked_at)
    }

    /// Creates a `healthy` health snapshot.
    pub fn healthy(checked_at: i64) -> (r: Self)
        ensures
            r@ == (HealthSnapshotView {
                status: McpServerHealthStatus::Healthy,
                checked_at,
                message: None,
            }),
    {
        Self::new(McpServerHealthStatus::Healthy, checked_at)
    }

    /// Creates an `unhealthy` health snapshot with details; a message that
    /// is blank after trimming is left out.
    pub fn unhealthy(checked_at: i64, message: &str) -> (r: Self)
        ensures
            r@.status == McpServerHealthStatus::Unhealthy,
            r@.checked_at == checked_at,
            r@.message == (if trim_spec(message@).len() == 0 {
                None
            } else {
                Some(trim_spec(message@))
            }),
    {
        Self::new(McpServerHealthStatus::Unhealthy, checked_at).with_message(message)
    }

    /// Adds an explanatory message, trimmed; a blank message leaves the
    /// snapshot unchanged.
    pub fn with_message(self, message: &str) -> (r: Self)
        ensures
            r@.status == self@.status,
            r@.checked_at == self@.checked_at,
            r@.message == (if trim_spec(message@).len() == 0 {
                self@.message
            } else {
                Some(trim_spec(message@))
            }),
    {
        let raw = chars_of(message);
        let normalized = crate::text::trim_chars(raw.as_slice());
        let mut s = self;
        if normalized.len() > 0 {
            s.message = Some(string_from_chars(normalized.as_slice()));
        }
        s
    }

    /// Returns the health status.
    pub fn status(&self) -> (r: McpServerHealthStatus)
        ensures
            r == self@.status,
    {
        self.status
    }

    /// Returns the health check timestamp (microseconds since the epoch).
    pub fn checked_at(&self) -> (r: i64)
        ensures
            r == self@.checked_at,
    {
        self.checked_at
    }

    /// Returns an optional health detail message.
    pub fn message(&self) -> (r: Option<&str>)
        ensures
            match r {
                Some(m) => self@.message == Some(m@),
                None => self@.message is None,
            },
    {
        match &self.message {
            Some(m) => Some(m.as_str()),
            None => None,
        }
    }

    /// A copy of this snapshot.
    pub fn cloned(&self) -> (r: Self)
        ensures
            r@ == self@,
    {
        let message = match &self.message {
            Some(m) => Some(m.clone()),
            None => None,
        };
        McpServerHealthSnapshot { status: self.status, checked_at: self.checked_at, message }
    }
}

} // verus!

verus! {

/// The canonical text of a health status is already normalized, and
/// distinct statuses have distinct texts: parsing what `as_str` writes gives
/// the status back.
pub proof fn lemma_health_text_roundtrip(s: McpServerHealthStatus)
    ensures
        ascii_lower_spec(trim_spec(health_status_text(s))) == health_status_text(s),
        forall|t: McpServerHealthStatus| #[trigger] health_status_text(t) == health_status_text(s)
            ==> t == s,
{
    reveal_strlit("unknown");
    reveal_strlit("healthy");
    reveal_strlit("unhealthy");
    let x = health_status_text(s);
    crate::text::lemma_plain_word_normalized(x);
    assert forall|t: McpServerHealthStatus| #[trigger] health_status_text(t) == health_status_text(
        s,
    ) implies t == s by {
        let y = health_status_text(t);
        if t != s {
            assert(y.len() != x.len() || y[0] != x[0]);
        }
    }
}

} // verus!
