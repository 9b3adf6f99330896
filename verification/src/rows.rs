//! Server records as a relational store keeps them, and their mapping to
//! and from registrations. The store's own calls are made by the adapter;
//! what is decided on the values read or written stands here.
//!
//! A transport is kept as a JSON document in the store. Encoding it and
//! decoding it is the adapter's work: a record written carries the
//! transport itself, and a record read carries the outcome of decoding.

use crate::health::{health_status_text, opt_view, HealthSnapshotView, McpServerHealthSnapshot, McpServerHealthStatus};
use crate::ids::{is_server_name_char, normalize_server_name, valid_server_name, McpServerId, McpServerName};
use crate::registry::McpServerRegistryError;
use crate::server::{
    lifecycle_text, McpServerLifecycleState, McpServerRegistration, PersistedMcpServerData, RegistrationView,
};
use crate::text::{ascii_lower_spec, chars_eq, chars_of, trim_spec};
use crate::transport::McpTransport;
use vstd::prelude::*;

verus! {

/// A server record as read back from the store.
#[derive(Debug)]
pub struct McpServerRow {
    /// Server identifier.
    pub id: u128,
    /// Stored server name.
    pub name: String,
    /// The transport decoded from its stored JSON document, or the text of
    /// the decoder's error.
    pub transport: Result<McpTransport, String>,
    /// Stored lifecycle state text.
    pub lifecycle_state: String,
    /// Stored health status text.
    pub health_status: String,
    /// Stored health message.
    pub health_message: Option<String>,
    /// Stored health check time (microseconds since the epoch).
    pub health_checked_at: Option<i64>,
    /// Creation time (microseconds since the epoch).
    pub created_at: i64,
    /// Last update time (microseconds since the epoch).
    pub updated_at: i64,
}

/// A server record to insert into the store.
#[derive(Debug)]
pub struct NewMcpServerRow {
    /// Server identifier.
    pub id: u128,
    /// Server name.
    pub name: String,
    /// Transport, to be stored as a JSON document.
    pub transport: McpTransport,
    /// Lifecycle state text.
    pub lifecycle_state: String,
    /// Health status text.
    pub health_status: String,
    /// Health message.
    pub health_message: Option<String>,
    /// Health check time (microseconds since the epoch).
    pub health_checked_at: Option<i64>,
    /// Creation time (microseconds since the epoch).
    pub created_at: i64,
    /// Last update time (microseconds since the epoch).
    pub updated_at: i64,
}

/// The mutable fields of a server record, as an update writes them.
#[derive(Debug)]
pub struct SerializedServerFields {
    /// Transport, to be stored as a JSON document.
    pub transport: McpTransport,
    /// Lifecycle state text.
    pub lifecycle_state: String,
    /// Health status text.
    pub health_status: String,
    /// Health message.
    pub health_message: Option<String>,
    /// Health check time (microseconds since the epoch).
    pub health_checked_at: Option<i64>,
    /// Last update time (microseconds since the epoch).
    pub updated_at: i64,
}

/// The stored health columns of a health snapshot: status text, message
/// and check time; a server without a snapshot is stored as `unknown`
/// with neither.
pub open spec fn health_columns(h: Option<HealthSnapshotView>) -> (Seq<char>, Option<Seq<char>>, Option<i64>) {
    match h {
        None => ("unknown"@, None, None),
        Some(s) => (health_status_text(s.status), s.message, Some(s.checked_at)),
    }
}

/// The text of the error that validating `raw` as a server name reports,
/// or `None` when it is a valid name.
pub open spec fn server_name_error_text(raw: Seq<char>) -> Option<Seq<char>> {
    let n = normalize_server_name(raw);
    if n.len() == 0 {
        Some("MCP server name must not be empty"@)
    } else if exists|i: int| 0 <= i < n.len() && !is_server_name_char(#[trigger] n[i]) {
        Some(
            "MCP server name '"@ + n
                + "' contains invalid characters (only lowercase alphanumeric and underscores allowed)"@,
        )
    } else if !valid_server_name(n) {
        Some("MCP server name exceeds 100 character limit: "@ + n)
    } else {
        None
    }
}

/// Whether a stored lifecycle text names `s` (surrounding whitespace and
/// ASCII case are ignored).
pub open spec fn lifecycle_parses_as(raw: Seq<char>, s: McpServerLifecycleState) -> bool {
    lifecycle_text(s) == ascii_lower_spec(trim_spec(raw))
}

/// Whether a stored lifecycle text names some state.
pub open spec fn lifecycle_parses(raw: Seq<char>) -> bool {
    exists|s: McpServerLifecycleState| lifecycle_parses_as(raw, s)
}

/// Whether a stored health text names `s` (surrounding whitespace and
/// ASCII case are ignored).
pub open spec fn health_parses_as(raw: Seq<char>, s: McpServerHealthStatus) -> bool {
    health_status_text(s) == ascii_lower_spec(trim_spec(raw))
}

/// Whether a stored health text names some status.
pub open spec fn health_parses(raw: Seq<char>) -> bool {
    exists|s: McpServerHealthStatus| health_parses_as(raw, s)
}

/// The snapshot that stored health columns describe, once the status text
/// parsed as `status`: none without a check time; else the status at that
/// time, with the trimmed message where it is not blank.
pub open spec fn snapshot_of(status: McpServerHealthStatus, checked_at: Option<i64>, message: Option<Seq<char>>) -> Option<
    HealthSnapshotView,
> {
    match checked_at {
        None => None,
        Some(at) => Some(
            HealthSnapshotView {
                status,
                checked_at: at,
                message: match message {
                    Some(m) => if trim_spec(m).len() == 0 {
                        None
                    } else {
                        Some(trim_spec(m))
                    },
                    None => None,
                },
            },
        ),
    }
}

/// The stored health columns of a snapshot.
pub fn serialize_health(snapshot: Option<&McpServerHealthSnapshot>) -> (r: (String, Option<String>, Option<i64>))
    ensures
        ({
            let c = health_columns(
                match snapshot {
                    Some(h) => Some(h@),
                    None => None,
                },
            );
            &&& r.0@ == c.0
            &&& opt_view(r.1) == c.1
            &&& r.2 == c.2
        }),
{
    match snapshot {
        None => (String::from_str("unknown"), None, None),
        Some(health) => {
            let message = match health.message() {
                Some(m) => Some(m.to_owned()),
                None => None,
            };
            (health.status().as_str().to_owned(), message, Some(health.checked_at()))
        },
    }
}

/// The mutable fields of a server, as an update writes them.
pub fn serialize_server_fields(server: &McpServerRegistration) -> (r: SerializedServerFields)
    ensures
        ({
            let c = health_columns(server@.last_health);
            &&& r.transport@ == server@.transport
            &&& r.lifecycle_state@ == lifecycle_text(server@.lifecycle_state)
            &&& r.health_status@ == c.0
            &&& opt_view(r.health_message) == c.1
            &&& r.health_checked_at == c.2
            &&& r.updated_at == server@.updated_at
        }),
{
    let (health_status, health_message, health_checked_at) = serialize_health(server.last_health());
    SerializedServerFields {
        transport: server.transport().cloned(),
        lifecycle_state: server.lifecycle_state().as_str().to_owned(),
        health_status,
        health_message,
        health_checked_at,
        updated_at: server.updated_at(),
    }
}

/// The record that inserts a server.
pub fn to_new_row(server: &McpServerRegistration) -> (r: NewMcpServerRow)
    ensures
        ({
            let c = health_columns(server@.last_health);
            &&& r.id == server@.id.0
            &&& r.name@ == server@.name
            &&& r.transport@ == server@.transport
            &&& r.lifecycle_state@ == lifecycle_text(server@.lifecycle_state)
            &&& r.health_status@ == c.0
            &&& opt_view(r.health_message) == c.1
            &&& r.health_checked_at == c.2
            &&& r.created_at == server@.created_at
            &&& r.updated_at == server@.updated_at
        }),
{
    let serialized = serialize_server_fields(server);
    NewMcpServerRow {
        id: server.id().into_inner(),
        name: server.name().as_str().to_owned(),
        transport: serialized.transport,
        lifecycle_state: serialized.lifecycle_state,
        health_status: serialized.health_status,
        health_message: serialized.health_message,
        health_checked_at: serialized.health_checked_at,
        created_at: server.created_at(),
        updated_at: serialized.updated_at,
    }
}

/// Rebuilds the health snapshot from stored health columns. The status
/// text must name a status, whether or not a check time is stored.
pub fn build_health_snapshot(
    health_status: &str,
    health_checked_at: Option<i64>,
    health_message: Option<String>,
) -> (r: Result<Option<McpServerHealthSnapshot>, McpServerRegistryError>)
    ensures
        health_parses(health_status@) <==> r is Ok,
        r matches Ok(h) ==> exists|s: McpServerHealthStatus|
            #![trigger health_parses_as(health_status@, s)]
            health_parses_as(health_status@, s) && match h {
                Some(x) => snapshot_of(s, health_checked_at, opt_view(health_message)) == Some(x@),
                None => snapshot_of(s, health_checked_at, opt_view(health_message)) is None,
            },
        r matches Err(e) ==> (e matches McpServerRegistryError::InvalidPersistedData(m)
            && m@ == "unknown MCP server health status: "@ + health_status@),
{
    let parsed_status = match McpServerHealthStatus::parse(health_status) {
        Ok(s) => s,
        Err(e) => {
            let text = e.message();
            return Err(McpServerRegistryError::invalid_persisted_data(text.as_str()));
        },
    };
    let checked_at = match health_checked_at {
        None => {
            assert(health_parses_as(health_status@, parsed_status));
            return Ok(None);
        },
        Some(at) => at,
    };
    let snapshot = McpServerHealthSnapshot::new(parsed_status, checked_at);
    let result = match health_message {
        Some(message) => snapshot.with_message(message.as_str()),
        None => snapshot,
    };
    assert(health_parses_as(health_status@, parsed_status));
    Ok(Some(result))
}

/// Text of the first fault in a stored server record, in the order the
/// fields are checked: name, transport, lifecycle state, health status;
/// `None` when the record rebuilds a registration.
pub open spec fn server_row_fault(row: McpServerRow) -> Option<Seq<char>> {
    if server_name_error_text(row.name@) is Some {
        server_name_error_text(row.name@)
    } else if row.transport is Err {
        Some(row.transport->Err_0@)
    } else if !lifecycle_parses(row.lifecycle_state@) {
        Some("unknown MCP server lifecycle state: "@ + row.lifecycle_state@)
    } else if !health_parses(row.health_status@) {
        Some("unknown MCP server health status: "@ + row.health_status@)
    } else {
        None
    }
}

/// Rebuilds a registration from a stored record. A record with a fault
/// (see [`server_row_fault`]) is refused as invalid persisted data with
/// the fault's text; otherwise the registration has the record's
/// identifier, normalized name, decoded transport, parsed state, the
/// health snapshot the health columns describe, and its times.
pub fn row_to_server(row: McpServerRow) -> (r: Result<McpServerRegistration, McpServerRegistryError>)
    ensures
        match server_row_fault(row) {
            Some(t) => r matches Err(McpServerRegistryError::InvalidPersistedData(m)) && m@ == t,
            None => r matches Ok(s) && s@.id == McpServerId(row.id) && s@.name == normalize_server_name(row.name@)
                && s@.transport == row.transport->Ok_0@ && lifecycle_parses_as(row.lifecycle_state@, s@.lifecycle_state)
                && s@.created_at == row.created_at && s@.updated_at == row.updated_at
                && exists|h: McpServerHealthStatus|
                    #![trigger health_parses_as(row.health_status@, h)]
                    health_parses_as(row.health_status@, h) && s@.last_health == snapshot_of(
                        h,
                        row.health_checked_at,
                        opt_view(row.health_message),
                    ),
        },
{
    let McpServerRow {
        id,
        name,
        transport,
        lifecycle_state,
        health_status,
        health_message,
        health_checked_at,
        created_at,
        updated_at,
    } = row;
    let parsed_name = match McpServerName::new(name.as_str()) {
        Ok(n) => n,
        Err(e) => {
            let text = e.message();
            return Err(McpServerRegistryError::invalid_persisted_data(text.as_str()));
        },
    };
    let parsed_transport = match transport {
        Ok(t) => t,
        Err(text) => return Err(McpServerRegistryError::invalid_persisted_data(text.as_str())),
    };
    assert(server_name_error_text(name@) is None);
    let parsed_lifecycle = match McpServerLifecycleState::parse(lifecycle_state.as_str()) {
        Ok(s) => {
            assert(lifecycle_parses_as(lifecycle_state@, s));
            s
        },
        Err(e) => {
            let text = e.message();
            return Err(McpServerRegistryError::invalid_persisted_data(text.as_str()));
        },
    };
    let parsed_health = match build_health_snapshot(health_status.as_str(), health_checked_at, health_message) {
        Ok(h) => h,
        Err(e) => return Err(e),
    };
    let data = PersistedMcpServerData {
        id: McpServerId::from_uuid(id),
        name: parsed_name,
        transport: parsed_transport,
        lifecycle_state: parsed_lifecycle,
        last_health: parsed_health,
        created_at,
        updated_at,
    };
    Ok(McpServerRegistration::from_persisted(data))
}

/// How a write to the store failed, as far as reading the failure needs.
#[derive(Debug)]
pub enum StoreWriteFailure {
    /// A unique constraint was violated.
    UniqueViolation {
        /// The violated constraint's name, where the store reported it.
        constraint: Option<String>,
        /// The store's text of the failure.
        message: String,
    },
    /// Any other failure.
    Other {
        /// The store's text of the failure.
        message: String,
    },
}

/// The store's text of a failure.
pub open spec fn failure_text(f: StoreWriteFailure) -> Seq<char> {
    match f {
        StoreWriteFailure::UniqueViolation { message, .. } => message@,
        StoreWriteFailure::Other { message } => message@,
    }
}

/// Whether `f` violates the unique constraint named `name`.
pub open spec fn violates(f: StoreWriteFailure, name: Seq<char>) -> bool {
    f matches StoreWriteFailure::UniqueViolation { constraint: Some(c), .. } && c@ == name
}

/// Name of the unique index on server names.
pub open spec fn server_name_index() -> Seq<char> {
    "idx_mcp_servers_name"@
}

/// Whether a violated constraint is the unique index on server names.
pub fn is_name_unique_violation(constraint: Option<&str>) -> (r: bool)
    ensures
        r <==> (constraint matches Some(c) && c@ == server_name_index()),
{
    match constraint {
        Some(c) => {
            let v = chars_of(c);
            let w = chars_of("idx_mcp_servers_name");
            chars_eq(v.as_slice(), w.as_slice())
        },
        None => false,
    }
}

/// The registry error for a failed insert of `server`: a violation of the
/// name index is a duplicate name, any other unique violation a duplicate
/// identifier, anything else a persistence failure with the store's text.
pub fn register_write_error(failure: StoreWriteFailure, server: &McpServerRegistration) -> (r: McpServerRegistryError)
    ensures
        violates(failure, server_name_index()) ==> (r matches McpServerRegistryError::DuplicateServerName(n) && n@
            == server@.name),
        (failure is UniqueViolation && !violates(failure, server_name_index())) ==> r
            == McpServerRegistryError::DuplicateServer(server@.id),
        failure is Other ==> (r matches McpServerRegistryError::Persistence(m) && m@ == failure_text(failure)),
{
    match failure {
        StoreWriteFailure::UniqueViolation { constraint, message: _ } => {
            let by_name = match &constraint {
                Some(c) => is_name_unique_violation(Some(c.as_str())),
                None => is_name_unique_violation(None),
            };
            if by_name {
                McpServerRegistryError::DuplicateServerName(server.name().cloned())
            } else {
                McpServerRegistryError::DuplicateServer(server.id())
            }
        },
        StoreWriteFailure::Other { message } => McpServerRegistryError::persistence(message.as_str()),
    }
}

/// The outcome of an update that touched `updated_count` records: none
/// means the server does not exist.
pub fn update_outcome(updated_count: usize, server_id: McpServerId) -> (r: Result<(), McpServerRegistryError>)
    ensures
        updated_count == 0 ==> r == Err::<(), McpServerRegistryError>(McpServerRegistryError::NotFound(server_id)),
        updated_count > 0 ==> r is Ok,
{
    if updated_count == 0 {
        Err(McpServerRegistryError::NotFound(server_id))
    } else {
        Ok(())
    }
}

/// A valid server name is its own normal form.
pub proof fn lemma_valid_name_normalized(n: Seq<char>)
    requires
        valid_server_name(n),
    ensures
        normalize_server_name(n) == n,
{
    assert(is_server_name_char(n[0]));
    assert(!crate::text::is_unicode_whitespace(n[0]));
    assert(crate::text::trim_start_spec(n) == n);
    assert(is_server_name_char(n[n.len() - 1]));
    assert(!crate::text::is_unicode_whitespace(n.last()));
    assert(crate::text::trim_end_spec(n) == n);
    assert forall|i: int| 0 <= i < n.len() implies crate::text::ascii_lower_char(n[i]) == n[i] by {
        assert(is_server_name_char(n[i]));
    }
    assert(ascii_lower_spec(n) =~= n);
}

/// A stored record reads back as the registration it was written from:
/// the record that [`to_new_row`] makes of a registration, with its
/// transport decoded as written, has no fault, and its name, state and
/// health columns rebuild the registration's name, state and snapshot.
/// The registration's name is valid and a snapshot's message is trimmed
/// and non-blank, as every registration and snapshot this library builds
/// has them.
pub proof fn lemma_server_row_roundtrip(s: RegistrationView, row: McpServerRow)
    requires
        valid_server_name(s.name),
        s.last_health matches Some(h) ==> (h.message matches Some(m) ==> m.len() > 0 && trim_spec(m) == m),
        row.id == s.id.0,
        row.name@ == s.name,
        row.transport matches Ok(t) && t@ == s.transport,
        row.lifecycle_state@ == lifecycle_text(s.lifecycle_state),
        row.health_status@ == health_columns(s.last_health).0,
        opt_view(row.health_message) == health_columns(s.last_health).1,
        row.health_checked_at == health_columns(s.last_health).2,
        row.created_at == s.created_at,
        row.updated_at == s.updated_at,
    ensures
        server_row_fault(row) is None,
        normalize_server_name(row.name@) == s.name,
        forall|x: McpServerLifecycleState| lifecycle_parses_as(row.lifecycle_state@, x) <==> x == s.lifecycle_state,
        forall|h: McpServerHealthStatus| #[trigger] health_parses_as(row.health_status@, h) ==> snapshot_of(
            h,
            row.health_checked_at,
            opt_view(row.health_message),
        ) == s.last_health,
{
    lemma_valid_name_normalized(s.name);
    assert(server_name_error_text(row.name@) is None);
    crate::server::lemma_lifecycle_text_roundtrip(s.lifecycle_state);
    assert(lifecycle_parses_as(row.lifecycle_state@, s.lifecycle_state));
    let status = match s.last_health {
        Some(h) => h.status,
        None => McpServerHealthStatus::Unknown,
    };
    crate::health::lemma_health_text_roundtrip(status);
    assert(health_parses_as(row.health_status@, status));
}

} // verus!
