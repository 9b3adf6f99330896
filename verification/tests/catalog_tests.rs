use tool_registry::catalog::{CatalogEntry, ToolCatalogError, ToolCatalogState};
use tool_registry::ids::{McpServerId, McpServerName};
use tool_registry::json::JsonValue;
use tool_registry::ids::TenantId;
use tool_registry::tenants::TenantCatalogs;
use tool_registry::tool::McpToolDefinition;

fn schema() -> JsonValue {
    JsonValue::Object(vec![
        (
            "properties".to_owned(),
            JsonValue::Object(vec![(
                "path".to_owned(),
                JsonValue::Object(vec![("type".to_owned(), JsonValue::String("string".to_owned()))]),
            )]),
        ),
        ("type".to_owned(), JsonValue::String("object".to_owned())),
    ])
}

fn catalog_entry(server_id: McpServerId, server_name: &str, tool_name: &str) -> CatalogEntry {
    CatalogEntry::new(
        server_id,
        McpServerName::new(server_name).expect("valid name"),
        McpToolDefinition::new(tool_name, "Reads a file from the workspace", schema())
            .expect("valid tool"),
        1_000,
    )
}

#[test]
fn sync_server_tools_rejects_duplicate_name_from_another_server() {
    let mut catalog = ToolCatalogState::new();
    let first_server = McpServerId::new();
    let second_server = McpServerId::new();
    catalog
        .sync_server_tools(first_server, &[catalog_entry(first_server, "file_tools", "read_file")])
        .expect("first sync should succeed");
    let result = catalog.sync_server_tools(
        second_server,
        &[catalog_entry(second_server, "backup_tools", "read_file")],
    );
    assert!(matches!(
        result,
        Err(ToolCatalogError::DuplicateEntry { ref tool_name, server_count: 2, .. }) if tool_name == "read_file"
    ));
    assert_eq!(catalog.list_all().len(), 1);
}

#[test]
fn sync_rejects_duplicate_within_batch() {
    let mut catalog = ToolCatalogState::new();
    let server = McpServerId::new();
    let a = catalog_entry(server, "file_tools", "read_file");
    let b = catalog_entry(server, "file_tools", "read_file");
    let b_id = b.id();
    let result = catalog.sync_server_tools(server, &[a, b]);
    assert_eq!(
        result,
        Err(ToolCatalogError::DuplicateWithinBatch {
            id: b_id,
            tool_name: "read_file".to_owned(),
            entry_count: 2
        })
    );
    assert!(catalog.list_all().is_empty());
}

#[test]
fn sync_rejects_mixed_server_batch() {
    let mut catalog = ToolCatalogState::new();
    let target = McpServerId::from_uuid(1);
    let other = McpServerId::from_uuid(2);
    let result = catalog.sync_server_tools(target, &[catalog_entry(other, "file_tools", "read_file")]);
    assert_eq!(
        result,
        Err(ToolCatalogError::MixedServerBatch {
            reason: "entry 'read_file' belongs to server 00000000-0000-0000-0000-000000000002 but batch targets 00000000-0000-0000-0000-000000000001".to_owned()
        })
    );
}

#[test]
fn sync_replaces_previous_entries_of_the_server() {
    let mut catalog = ToolCatalogState::new();
    let server = McpServerId::new();
    let other = McpServerId::new();
    catalog
        .sync_server_tools(other, &[catalog_entry(other, "backup_tools", "backup")])
        .expect("sync other");
    catalog
        .sync_server_tools(server, &[catalog_entry(server, "file_tools", "read_file")])
        .expect("first sync");
    catalog
        .sync_server_tools(
            server,
            &[
                catalog_entry(server, "file_tools", "write_file"),
                catalog_entry(server, "file_tools", "list_dir"),
            ],
        )
        .expect("second sync");
    let names: Vec<String> =
        catalog.list_all().iter().map(|e| e.tool().name().to_owned()).collect();
    assert_eq!(names, vec!["backup", "write_file", "list_dir"]);
    assert!(catalog.find_by_tool_name("read_file").is_empty());
    assert_eq!(catalog.find_by_tool_name("list_dir").len(), 1);
}

#[test]
fn resyncing_the_same_names_on_the_same_server_is_allowed() {
    let mut catalog = ToolCatalogState::new();
    let server = McpServerId::new();
    catalog
        .sync_server_tools(server, &[catalog_entry(server, "file_tools", "read_file")])
        .expect("first sync");
    catalog
        .sync_server_tools(server, &[catalog_entry(server, "file_tools", "read_file")])
        .expect("resync");
    assert_eq!(catalog.find_by_tool_name("read_file").len(), 1);
}

#[test]
fn mark_unavailable_touches_only_the_server() {
    let mut catalog = ToolCatalogState::new();
    let a = McpServerId::new();
    let b = McpServerId::new();
    catalog.sync_server_tools(a, &[catalog_entry(a, "file_tools", "read_file")]).expect("a");
    catalog.sync_server_tools(b, &[catalog_entry(b, "backup_tools", "backup")]).expect("b");
    catalog.mark_server_tools_unavailable(a, 5_000);
    let read = &catalog.find_by_tool_name("read_file")[0];
    assert!(!read.available());
    assert_eq!(read.updated_at(), 5_000);
    assert_eq!(read.discovered_at(), 1_000);
    let backup = &catalog.find_by_tool_name("backup")[0];
    assert!(backup.available());
    assert_eq!(backup.updated_at(), 1_000);
    catalog.mark_server_tools_available(a, 6_000);
    let read = &catalog.find_by_tool_name("read_file")[0];
    assert!(read.available());
    assert_eq!(read.updated_at(), 6_000);
}

#[test]
fn catalog_error_texts() {
    let id = tool_registry::ids::CatalogEntryId::from_uuid(0xabc);
    let e = ToolCatalogError::DuplicateEntry { id, tool_name: "t".to_owned(), server_count: 3 };
    assert_eq!(
        e.message(),
        "duplicate catalog entry 't' found on 3 servers (entry: 00000000-0000-0000-0000-000000000abc)"
    );
    let e = ToolCatalogError::persistence("insert", "disk full");
    assert_eq!(e.message(), "catalog persistence error during 'insert': disk full");
}

#[test]
fn tenants_do_not_see_each_other() {
    let mut catalogs = TenantCatalogs::new();
    let a = TenantId::from_uuid(1);
    let b = TenantId::from_uuid(2);
    let server = McpServerId::new();
    catalogs
        .sync_server_tools(a, server, &[catalog_entry(server, "file_tools", "read_file")])
        .expect("sync for tenant a");
    assert_eq!(catalogs.list_all(a).len(), 1);
    assert!(catalogs.list_all(b).is_empty());
    assert!(catalogs.find_by_tool_name(b, "read_file").is_empty());
    let other = McpServerId::new();
    catalogs
        .sync_server_tools(b, other, &[catalog_entry(other, "backup_tools", "read_file")])
        .expect("the same name is free in another tenant");
    catalogs.mark_server_tools_unavailable(b, other, 9);
    assert!(catalogs.find_by_tool_name(a, "read_file")[0].available());
    assert!(!catalogs.find_by_tool_name(b, "read_file")[0].available());
    assert!(catalogs.audit_records(a).is_empty());
}

#[test]
fn sync_then_find_returns_the_synced_entry() {
    let mut catalog = ToolCatalogState::new();
    let server = McpServerId::new();
    let other = McpServerId::new();
    catalog
        .sync_server_tools(other, &[catalog_entry(other, "backup_tools", "backup")])
        .expect("first sync");
    let entry = catalog_entry(server, "file_tools", "read_file");
    let id = entry.id();
    catalog
        .sync_server_tools(server, &[entry, catalog_entry(server, "file_tools", "write_file")])
        .expect("second sync");
    let found = catalog.find_by_tool_name("read_file");
    assert_eq!(found.len(), 1);
    assert_eq!(found[0].id(), id);
    assert_eq!(catalog.find_by_tool_name("backup").len(), 1);
}

fn entry_with_id(id: u128, server_id: McpServerId, tool_name: &str) -> CatalogEntry {
    CatalogEntry::from_persisted(tool_registry::catalog::PersistedCatalogEntryData {
        id: tool_registry::ids::CatalogEntryId::from_uuid(id),
        server_id,
        server_name: McpServerName::new("file_tools").expect("valid name"),
        tool: McpToolDefinition::new(tool_name, "A tool", schema()).expect("valid tool"),
        available: true,
        discovered_at: 5,
        updated_at: 5,
    })
}

#[test]
fn sync_holds_entries_by_identifier() {
    let mut catalog = ToolCatalogState::new();
    let a = McpServerId::from_uuid(1);
    let b = McpServerId::from_uuid(2);
    catalog.sync_server_tools(a, &[entry_with_id(7, a, "alpha"), entry_with_id(8, a, "beta")]).expect("sync a");
    catalog.sync_server_tools(b, &[entry_with_id(7, b, "gamma")]).expect("sync b");
    let all = catalog.list_all();
    assert_eq!(all.len(), 2);
    assert_eq!(all[0].tool().name(), "beta");
    assert_eq!(all[1].tool().name(), "gamma");
    assert_eq!(all[1].server_id(), b);
    catalog.sync_server_tools(b, &[entry_with_id(9, b, "one"), entry_with_id(9, b, "two")]).expect("sync b again");
    let all = catalog.list_all();
    assert_eq!(all.len(), 2);
    assert_eq!(all[1].tool().name(), "two");
}
