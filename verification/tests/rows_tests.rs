use tool_registry::catalog::{CatalogEntry, ToolCatalogError};
use tool_registry::catalog_rows::{
    audit_to_new_row, duplicate_entry_error, duplicate_entry_from_counts, entry_to_new_row,
    find_duplicate_entry, is_catalog_name_unique_violation, lookup_count, map_sync_rows_error,
    needs_conflict_recount, row_to_entry, to_new_rows, validate_same_server, CatalogEntryRow,
};
use tool_registry::health::{McpServerHealthSnapshot, McpServerHealthStatus};
use tool_registry::ids::{CatalogEntryId, McpServerId, McpServerName, TenantId};
use tool_registry::json::JsonValue;
use tool_registry::registry::McpServerRegistryError;
use tool_registry::routing::{ToolCallAuditRecord, ToolCallRequest};
use tool_registry::rows::{
    build_health_snapshot, is_name_unique_violation, register_write_error, row_to_server,
    serialize_health, serialize_server_fields, to_new_row, update_outcome, McpServerRow,
    StoreWriteFailure,
};
use tool_registry::server::{McpServerLifecycleState, McpServerRegistration};
use tool_registry::tool::McpToolDefinition;
use tool_registry::transport::McpTransport;

fn obj(members: Vec<(&str, JsonValue)>) -> JsonValue {
    JsonValue::Object(members.into_iter().map(|(k, v)| (k.to_owned(), v)).collect())
}

fn registration() -> McpServerRegistration {
    McpServerRegistration::new(
        McpServerName::new("workspace_tools").expect("valid name"),
        McpTransport::stdio("mcp-server").expect("valid transport"),
        1_000,
    )
}

fn server_row(name: &str, state: &str, status: &str) -> McpServerRow {
    McpServerRow {
        id: 42,
        name: name.to_owned(),
        transport: Ok(McpTransport::stdio("mcp-server").expect("valid transport")),
        lifecycle_state: state.to_owned(),
        health_status: status.to_owned(),
        health_message: Some("  all good ".to_owned()),
        health_checked_at: Some(500),
        created_at: 100,
        updated_at: 200,
    }
}

fn entry(server_id: McpServerId, tool_name: &str) -> CatalogEntry {
    CatalogEntry::new(
        server_id,
        McpServerName::new("workspace_tools").expect("valid name"),
        McpToolDefinition::new(tool_name, "Reads a file", obj(vec![("type", JsonValue::String("object".to_owned()))]))
            .expect("valid tool"),
        10,
    )
}

#[test]
fn server_rows_round_trip_through_the_store_shape() {
    let server = registration();
    let row = to_new_row(&server);
    assert_eq!(row.id, server.id().into_inner());
    assert_eq!(row.name, "workspace_tools");
    assert_eq!(row.lifecycle_state, "registered");
    assert_eq!(row.health_status, "unknown");
    assert_eq!(row.health_checked_at, Some(1_000));
    let back = row_to_server(McpServerRow {
        id: row.id,
        name: row.name,
        transport: Ok(row.transport),
        lifecycle_state: row.lifecycle_state,
        health_status: row.health_status,
        health_message: row.health_message,
        health_checked_at: row.health_checked_at,
        created_at: row.created_at,
        updated_at: row.updated_at,
    })
    .expect("the row should rebuild");
    assert_eq!(back, server);
}

#[test]
fn stored_server_values_are_normalized() {
    let server = row_to_server(server_row(" Workspace_Tools ", " RUNNING ", "Healthy")).expect("valid row");
    assert_eq!(server.id(), McpServerId::from_uuid(42));
    assert_eq!(server.name().as_str(), "workspace_tools");
    assert_eq!(server.lifecycle_state(), McpServerLifecycleState::Running);
    let health = server.last_health().expect("a snapshot");
    assert_eq!(health.status(), McpServerHealthStatus::Healthy);
    assert_eq!(health.checked_at(), 500);
    assert_eq!(health.message(), Some("all good"));
    assert_eq!(server.created_at(), 100);
    assert_eq!(server.updated_at(), 200);
}

#[test]
fn faulty_server_rows_are_invalid_persisted_data() {
    let bad_name = row_to_server(server_row("bad name", "running", "healthy")).unwrap_err();
    assert_eq!(
        bad_name,
        McpServerRegistryError::InvalidPersistedData(
            "MCP server name 'bad name' contains invalid characters (only lowercase alphanumeric and underscores allowed)"
                .to_owned()
        )
    );
    let mut row = server_row("tools", "running", "healthy");
    row.transport = Err("missing field `kind`".to_owned());
    assert_eq!(
        row_to_server(row).unwrap_err(),
        McpServerRegistryError::InvalidPersistedData("missing field `kind`".to_owned())
    );
    assert_eq!(
        row_to_server(server_row("tools", "paused", "bogus")).unwrap_err(),
        McpServerRegistryError::InvalidPersistedData("unknown MCP server lifecycle state: paused".to_owned())
    );
    assert_eq!(
        row_to_server(server_row("tools", "stopped", "bogus")).unwrap_err(),
        McpServerRegistryError::InvalidPersistedData("unknown MCP server health status: bogus".to_owned())
    );
}

#[test]
fn health_columns_without_check_time_give_no_snapshot() {
    assert_eq!(build_health_snapshot("healthy", None, Some("x".to_owned())), Ok(None));
    assert!(build_health_snapshot("nope", None, None).is_err());
    let snapshot = build_health_snapshot("unhealthy", Some(7), Some("   ".to_owned()))
        .expect("valid")
        .expect("a snapshot");
    assert_eq!(snapshot.message(), None);
    assert_eq!(snapshot.status(), McpServerHealthStatus::Unhealthy);
    assert_eq!(serialize_health(None), ("unknown".to_owned(), None, None));
    let healthy = McpServerHealthSnapshot::unhealthy(9, "disk full");
    assert_eq!(
        serialize_health(Some(&healthy)),
        ("unhealthy".to_owned(), Some("disk full".to_owned()), Some(9))
    );
}

#[test]
fn serialized_fields_carry_the_mutable_state() {
    let server = registration();
    let fields = serialize_server_fields(&server);
    assert_eq!(fields.lifecycle_state, "registered");
    assert_eq!(fields.updated_at, 1_000);
    assert_eq!(&fields.transport, server.transport());
}

#[test]
fn registry_write_failures_are_read_by_constraint() {
    let server = registration();
    assert!(is_name_unique_violation(Some("idx_mcp_servers_name")));
    assert!(!is_name_unique_violation(Some("mcp_servers_pkey")));
    assert!(!is_name_unique_violation(None));
    let by_name = StoreWriteFailure::UniqueViolation {
        constraint: Some("idx_mcp_servers_name".to_owned()),
        message: "duplicate key".to_owned(),
    };
    assert_eq!(
        register_write_error(by_name, &server),
        McpServerRegistryError::DuplicateServerName(server.name().cloned())
    );
    let by_id = StoreWriteFailure::UniqueViolation { constraint: None, message: "duplicate key".to_owned() };
    assert_eq!(register_write_error(by_id, &server), McpServerRegistryError::DuplicateServer(server.id()));
    let other = StoreWriteFailure::Other { message: "connection reset".to_owned() };
    assert_eq!(
        register_write_error(other, &server),
        McpServerRegistryError::Persistence("connection reset".to_owned())
    );
    assert_eq!(update_outcome(0, server.id()), Err(McpServerRegistryError::NotFound(server.id())));
    assert_eq!(update_outcome(1, server.id()), Ok(()));
}

#[test]
fn catalog_rows_round_trip() {
    let server = McpServerId::from_uuid(5);
    let written = entry(server, "read_file");
    let new_row = entry_to_new_row(&written, TenantId::from_uuid(3));
    assert_eq!(new_row.tenant_id, 3);
    assert_eq!(new_row.server_id, 5);
    assert_eq!(new_row.tool_name, "read_file");
    let back = row_to_entry(CatalogEntryRow {
        id: new_row.id,
        server_id: new_row.server_id,
        server_name: new_row.server_name,
        tool_name: new_row.tool_name,
        tool_description: new_row.tool_description,
        input_schema: new_row.input_schema,
        output_schema: new_row.output_schema,
        available: new_row.available,
        discovered_at: new_row.discovered_at,
        updated_at: new_row.updated_at,
    })
    .expect("the row should rebuild");
    assert_eq!(back, written);
}

#[test]
fn faulty_catalog_rows_name_the_field() {
    let row = |server_name: &str, tool_name: &str, description: &str| CatalogEntryRow {
        id: 1,
        server_id: 2,
        server_name: server_name.to_owned(),
        tool_name: tool_name.to_owned(),
        tool_description: description.to_owned(),
        input_schema: JsonValue::Null,
        output_schema: Some(JsonValue::Bool(true)),
        available: false,
        discovered_at: 3,
        updated_at: 4,
    };
    assert_eq!(
        row_to_entry(row("", "t", "d")).unwrap_err(),
        ToolCatalogError::InvalidPersistedData {
            field: "server_name".to_owned(),
            reason: "MCP server name must not be empty".to_owned()
        }
    );
    assert_eq!(
        row_to_entry(row("tools", "t", "  ")).unwrap_err(),
        ToolCatalogError::InvalidPersistedData {
            field: "tool_definition".to_owned(),
            reason: "tool description must not be empty".to_owned()
        }
    );
    let e = row_to_entry(row("tools", " t ", "d")).expect("valid");
    assert_eq!(e.tool().name(), "t");
    assert_eq!(e.tool().output_schema(), Some(&JsonValue::Bool(true)));
    assert!(!e.available());
}

#[test]
fn audit_rows_are_redacted() {
    let request = ToolCallRequest::new(
        "read_file",
        obj(vec![("path", JsonValue::String("/secret".to_owned())), ("n", JsonValue::Number("3".to_owned()))]),
        1_000,
    );
    let record = ToolCallAuditRecord::for_rejection(&request, McpServerId::from_uuid(8), "token leaked", 3_999)
        .with_stderr_log_path("tool_logs/x.stderr");
    let row = audit_to_new_row(&record, TenantId::from_uuid(4));
    assert_eq!(row.outcome, "failure");
    assert_eq!(row.outcome_content, None);
    assert_eq!(row.outcome_error, Some("[REDACTED]".to_owned()));
    assert_eq!(row.duration_ms, 2);
    assert_eq!(row.tenant_id, 4);
    assert_eq!(row.server_id, 8);
    assert_eq!(
        row.parameters,
        obj(vec![("path", JsonValue::String("[REDACTED]".to_owned())), ("n", JsonValue::Number("3".to_owned()))])
    );
    assert_eq!(row.stderr_log_path, Some("tool_logs/x.stderr".to_owned()));
}

#[test]
fn sync_batches_are_checked_before_writing() {
    let server = McpServerId::from_uuid(5);
    let other = McpServerId::from_uuid(6);
    assert!(validate_same_server(server, &[entry(server, "a"), entry(server, "b")]).is_ok());
    match validate_same_server(server, &[entry(server, "a"), entry(other, "b")]) {
        Err(ToolCatalogError::MixedServerBatch { reason }) => assert_eq!(
            reason,
            "entry 'b' belongs to server 00000000-0000-0000-0000-000000000006 but batch targets 00000000-0000-0000-0000-000000000005"
        ),
        other => panic!("expected a mixed batch, got {other:?}"),
    }
    let batch = [entry(server, "a"), entry(server, "b"), entry(server, "a"), entry(server, "a")];
    let third = batch[2].id();
    assert_eq!(
        find_duplicate_entry(&batch),
        Some(ToolCatalogError::DuplicateWithinBatch { id: third, tool_name: "a".to_owned(), entry_count: 3 })
    );
    assert!(to_new_rows(TenantId::from_uuid(1), &batch).is_err());
    let rows = to_new_rows(TenantId::from_uuid(1), &batch[..2]).expect("distinct names");
    assert_eq!(rows.len(), 2);
    assert_eq!(rows[1].tool_name, "b");
}

#[test]
fn conflicting_name_counts_become_duplicate_entries() {
    let server = McpServerId::from_uuid(5);
    let rows = to_new_rows(TenantId::from_uuid(1), &[entry(server, "a"), entry(server, "b")]).expect("rows");
    let counts = vec![("b".to_owned(), 2usize), ("z".to_owned(), 1usize)];
    assert_eq!(lookup_count(&counts, "b"), Some(2));
    assert_eq!(lookup_count(&counts, "a"), None);
    assert_eq!(
        duplicate_entry_from_counts(&rows, &counts),
        Some(ToolCatalogError::DuplicateEntry {
            id: CatalogEntryId::from_uuid(rows[1].id),
            tool_name: "b".to_owned(),
            server_count: 3
        })
    );
    assert_eq!(duplicate_entry_from_counts(&rows, &[]), None);
    assert_eq!(
        duplicate_entry_error(&rows[0], &[]),
        ToolCatalogError::DuplicateEntry { id: CatalogEntryId::from_uuid(rows[0].id), tool_name: "a".to_owned(), server_count: 1 }
    );
}

#[test]
fn failed_sync_writes_are_read_by_constraint() {
    let server = McpServerId::from_uuid(5);
    let rows = to_new_rows(TenantId::from_uuid(1), &[entry(server, "a")]).expect("rows");
    assert!(is_catalog_name_unique_violation(Some("idx_mcp_tool_catalog_tenant_tool_name")));
    assert!(!is_catalog_name_unique_violation(Some("idx_mcp_servers_name")));
    let violation = StoreWriteFailure::UniqueViolation {
        constraint: Some("idx_mcp_tool_catalog_tenant_tool_name".to_owned()),
        message: "duplicate key value".to_owned(),
    };
    assert!(needs_conflict_recount(&violation));
    let counts = vec![("a".to_owned(), 1usize)];
    assert_eq!(
        map_sync_rows_error(&rows, &violation, Some(&counts)),
        ToolCatalogError::DuplicateEntry { id: CatalogEntryId::from_uuid(rows[0].id), tool_name: "a".to_owned(), server_count: 2 }
    );
    let persistence = ToolCatalogError::Persistence {
        operation: "transaction".to_owned(),
        reason: "duplicate key value".to_owned(),
    };
    assert_eq!(map_sync_rows_error(&rows, &violation, None), persistence);
    assert_eq!(map_sync_rows_error(&rows, &violation, Some(&[])), persistence);
    let other = StoreWriteFailure::Other { message: "timeout".to_owned() };
    assert!(!needs_conflict_recount(&other));
    assert_eq!(
        map_sync_rows_error(&rows, &other, Some(&counts)),
        ToolCatalogError::Persistence { operation: "transaction".to_owned(), reason: "timeout".to_owned() }
    );
}
