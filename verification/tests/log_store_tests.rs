use tool_registry::ids::{LogEntryId, McpServerId, TenantId, ToolCallId};
use tool_registry::sweep_flow::{SweepFlow, SweepStep};
use tool_registry::log_capture::{
    LogCaptureContext, LogEntryKind, LogEntryMetadata, LogRetentionPolicy, PersistedLogEntryData,
};
use tool_registry::log_store::{
    plan_sweep, rebuild_listing, rebuild_metadata_from_path, server_prefix, tenant_prefix,
    truncate_if_needed, validate_tenant_prefix, LogMetadataIndex, SweepContext, ToolLogStoreError,
};

const SECOND: i64 = 1_000_000;

fn tenant() -> TenantId {
    TenantId::from_uuid(0x11)
}

fn startup_entry(server: McpServerId, now: i64, retention: &LogRetentionPolicy) -> LogEntryMetadata {
    let ctx = LogCaptureContext { now, retention, tenant_id: tenant() };
    LogEntryMetadata::for_startup(server, 18, &ctx)
}

fn policy(max_logs: usize, retention_seconds: i64) -> LogRetentionPolicy {
    LogRetentionPolicy {
        max_bytes_per_log: 1024,
        max_logs_per_server: max_logs,
        retention_period: retention_seconds * SECOND,
    }
}

#[test]
fn default_policy_values() {
    let p = LogRetentionPolicy::default();
    assert_eq!(p.max_bytes_per_log, 10 * 1024 * 1024);
    assert_eq!(p.max_logs_per_server, 100);
    assert_eq!(p.retention_period, 7 * 24 * 3600 * SECOND);
}

#[test]
fn startup_path_has_tenant_server_kind_and_id() {
    let server = McpServerId::from_uuid(0x22);
    let p = policy(100, 1);
    let m = startup_entry(server, 50 * SECOND, &p);
    let expected = format!(
        "tool_logs/00000000-0000-0000-0000-000000000011/00000000-0000-0000-0000-000000000022/startup/{}.stderr",
        m.id().to_text()
    );
    assert_eq!(m.object_path(), expected);
    assert_eq!(m.captured_at(), 50 * SECOND);
    assert_eq!(m.expires_at(), 51 * SECOND);
    assert_eq!(m.byte_count(), 18);
    assert_eq!(*m.kind(), LogEntryKind::ServerStartup);
}

#[test]
fn tool_call_path_carries_call_id() {
    let server = McpServerId::from_uuid(0x22);
    let call = ToolCallId::from_uuid(0x33);
    let p = policy(100, 1);
    let ctx = LogCaptureContext { now: 0, retention: &p, tenant_id: tenant() };
    let m = LogEntryMetadata::for_tool_call(server, call, 4, &ctx);
    assert!(m
        .object_path()
        .contains("/call/00000000-0000-0000-0000-000000000033/"));
    assert_eq!(LogEntryKind::ToolCall { call_id: call }.path_segment(), "call/00000000-0000-0000-0000-000000000033");
}

#[test]
fn expiry_is_strictly_after() {
    let p = policy(100, 1);
    let m = startup_entry(McpServerId::new(), 0, &p);
    assert!(!p.is_expired(&m, SECOND));
    assert!(p.is_expired(&m, SECOND + 1));
}

#[test]
fn truncation_keeps_short_logs() {
    let content = b"short".to_vec();
    assert_eq!(truncate_if_needed(content.clone(), 100), content);
}

#[test]
fn truncation_appends_marker_when_room() {
    let content = vec![b'x'; 100];
    let out = truncate_if_needed(content, 50);
    assert_eq!(out.len(), 50);
    let marker = b"\n--- truncated at max_bytes_per_log ---\n";
    assert_eq!(&out[..10], &[b'x'; 10][..]);
    assert_eq!(&out[10..], &marker[..]);
}

#[test]
fn truncation_hard_cuts_below_marker_size() {
    let content = vec![b'y'; 100];
    let out = truncate_if_needed(content, 40);
    assert_eq!(out, vec![b'y'; 40]);
    let out = truncate_if_needed(vec![b'z'; 3], 2);
    assert_eq!(out, vec![b'z'; 2]);
}

#[test]
fn tenant_prefix_is_enforced() {
    let t = tenant();
    assert_eq!(tenant_prefix(t), "tool_logs/00000000-0000-0000-0000-000000000011/");
    assert_eq!(
        server_prefix(t, McpServerId::from_uuid(1)),
        "tool_logs/00000000-0000-0000-0000-000000000011/00000000-0000-0000-0000-000000000001/"
    );
    assert_eq!(validate_tenant_prefix(t, "tool_logs/00000000-0000-0000-0000-000000000011/x"), Ok(()));
    let err = validate_tenant_prefix(t, "tool_logs/other/x").unwrap_err();
    assert_eq!(
        err,
        ToolLogStoreError::TenantMismatch {
            path: "tool_logs/other/x".to_owned(),
            expected_prefix: "tool_logs/00000000-0000-0000-0000-000000000011/".to_owned(),
        }
    );
    assert_eq!(
        err.message(),
        "tenant mismatch: path 'tool_logs/other/x' does not start with expected prefix 'tool_logs/00000000-0000-0000-0000-000000000011/'"
    );
}

#[test]
fn sweep_deletes_expired_entries() {
    let server = McpServerId::new();
    let retention = policy(100, 1);
    let metadata = startup_entry(server, 0, &retention);
    let now = metadata.expires_at() + SECOND;
    let sweep = SweepContext { policy: &retention, now };
    let plan = plan_sweep(tenant(), &vec![metadata.cloned()], &sweep);
    assert_eq!(plan.expired.len() + plan.excess.len(), 1, "one expired entry should be swept");
    assert_eq!(plan.expired[0], metadata.object_path());
}

#[test]
fn sweep_does_not_delete_unexpired_entries() {
    let server = McpServerId::new();
    let retention = LogRetentionPolicy::default();
    let metadata = startup_entry(server, 7, &retention);
    let sweep = SweepContext { policy: &retention, now: metadata.captured_at() };
    let plan = plan_sweep(tenant(), &vec![metadata], &sweep);
    assert_eq!(plan.expired.len() + plan.excess.len(), 0, "no entries should be swept");
}

#[test]
fn sweep_enforces_count_limit() {
    let server = McpServerId::new();
    let retention = policy(2, 7 * 24 * 3600);
    let entries = vec![
        startup_entry(server, 10, &retention),
        startup_entry(server, 5, &retention),
        startup_entry(server, 20, &retention),
    ];
    let sweep = SweepContext { policy: &retention, now: 30 };
    let plan = plan_sweep(tenant(), &entries, &sweep);
    assert_eq!(plan.expired.len() + plan.excess.len(), 1, "one excess entry should be swept");
    assert_eq!(plan.excess[0], entries[1].object_path());
}

#[test]
fn excess_ties_are_broken_by_position() {
    let server = McpServerId::new();
    let retention = policy(1, 1000);
    let entries = vec![
        startup_entry(server, 10, &retention),
        startup_entry(server, 10, &retention),
        startup_entry(server, 10, &retention),
    ];
    let sweep = SweepContext { policy: &retention, now: 10 };
    let plan = plan_sweep(tenant(), &entries, &sweep);
    assert_eq!(plan.excess, vec![entries[0].object_path().to_owned(), entries[1].object_path().to_owned()]);
}

#[test]
fn sweep_ignores_other_tenants() {
    let server = McpServerId::new();
    let retention = policy(100, 1);
    let other_ctx = LogCaptureContext { now: 0, retention: &retention, tenant_id: TenantId::from_uuid(0x99) };
    let foreign = LogEntryMetadata::for_startup(server, 1, &other_ctx);
    let own = startup_entry(server, 0, &retention);
    let sweep = SweepContext { policy: &retention, now: 10 * SECOND };
    let plan = plan_sweep(tenant(), &vec![foreign, own.cloned()], &sweep);
    assert_eq!(plan.expired, vec![own.object_path().to_owned()]);
}

#[test]
fn sweep_only_affects_target_server() {
    let a = McpServerId::new();
    let b = McpServerId::new();
    let retention = policy(100, 1);
    let mut index = LogMetadataIndex::new();
    let meta_a = startup_entry(a, 0, &retention);
    index.insert(meta_a.cloned());
    index.insert(startup_entry(b, 0, &retention));
    let sweep = SweepContext { policy: &retention, now: meta_a.expires_at() + SECOND };
    let plan = plan_sweep(tenant(), &index.entries_for_server(a), &sweep);
    assert_eq!(plan.expired.len() + plan.excess.len(), 1, "only server A's entry should be swept");
    index.remove_paths(&plan.expired);
    assert_eq!(index.entries_for_server(b).len(), 1, "server B's log should remain");
    assert!(index.entries_for_server(a).is_empty());
}

#[test]
fn delete_log_removes_metadata() {
    let server = McpServerId::new();
    let retention = policy(100, 1);
    let mut index = LogMetadataIndex::new();
    let metadata = startup_entry(server, 0, &retention);
    index.insert(metadata.cloned());
    index.remove(metadata.object_path());
    let sweep = SweepContext { policy: &retention, now: metadata.expires_at() + SECOND };
    let plan = plan_sweep(tenant(), &index.entries_for_server(server), &sweep);
    assert_eq!(plan.expired.len() + plan.excess.len(), 0, "deleted entry should not be swept again");
}

#[test]
fn index_insert_replaces_same_path() {
    let server = McpServerId::new();
    let retention = policy(100, 1);
    let first = startup_entry(server, 0, &retention);
    let replacement = LogEntryMetadata::from_persisted(PersistedLogEntryData {
        id: first.id(),
        server_id: server,
        kind: LogEntryKind::ServerStartup,
        object_path: first.object_path().to_owned(),
        byte_count: 99,
        captured_at: 3,
        expires_at: 4,
    });
    let mut index = LogMetadataIndex::new();
    index.insert(first);
    index.insert(replacement);
    let entries = index.entries_for_server(server);
    assert_eq!(entries.len(), 1);
    assert_eq!(entries[0].byte_count(), 99);
}

#[test]
fn sweep_rebuilds_metadata_from_object_store_after_restart() {
    let server = McpServerId::from_uuid(0x22);
    let retention = policy(100, 1);
    let metadata = startup_entry(server, 0, &retention);
    let listing = vec![(metadata.object_path().to_owned(), 18u64, 0i64)];
    let rebuilt = rebuild_listing(&listing, server, retention.retention_period);
    assert_eq!(rebuilt.len(), 1, "rebuilt metadata should allow sweep");
    assert_eq!(rebuilt[0].id(), metadata.id());
    let sweep = SweepContext { policy: &retention, now: metadata.expires_at() + SECOND };
    let plan = plan_sweep(tenant(), &rebuilt, &sweep);
    assert_eq!(plan.expired.len(), 1, "rebuilt metadata should allow the expired log to be swept");
}

#[test]
fn rebuild_reads_tool_call_paths() {
    let server = McpServerId::from_uuid(0x22);
    let path = "tool_logs/t/s/call/00000000-0000-0000-0000-000000000033/00000000-0000-0000-0000-000000000044.stderr";
    let m = rebuild_metadata_from_path(path, 7, 100, server, 5).expect("tool call path rebuilds");
    assert_eq!(m.id(), LogEntryId::from_uuid(0x44));
    assert_eq!(*m.kind(), LogEntryKind::ToolCall { call_id: ToolCallId::from_uuid(0x33) });
    assert_eq!(m.expires_at(), 105);
    assert_eq!(m.byte_count(), 7);
    assert_eq!(m.object_path(), path);
}

#[test]
fn rebuild_rejects_unknown_shapes() {
    let server = McpServerId::new();
    let id = "00000000-0000-0000-0000-000000000044";
    assert!(rebuild_metadata_from_path("", 0, 0, server, 0).is_none());
    assert!(rebuild_metadata_from_path(&format!("tool_logs/t/s/startup/{id}.log"), 0, 0, server, 0).is_none());
    assert!(rebuild_metadata_from_path("tool_logs/t/s/startup/.stderr", 0, 0, server, 0).is_none());
    assert!(rebuild_metadata_from_path("tool_logs/t/s/startup/nope.stderr", 0, 0, server, 0).is_none());
    assert!(rebuild_metadata_from_path(&format!("tool_logs/t/s/other/{id}.stderr"), 0, 0, server, 0).is_none());
    assert!(rebuild_metadata_from_path(&format!("logs/t/s/startup/{id}.stderr"), 0, 0, server, 0).is_none());
    assert!(rebuild_metadata_from_path(&format!("tool_logs/t/s/call/bad/{id}.stderr"), 0, 0, server, 0).is_none());
    assert!(rebuild_metadata_from_path(&format!("tool_logs/t/s/startup/{id}.stderr"), 0, 0, server, 0).is_some());
}

#[test]
fn log_store_error_texts() {
    assert_eq!(ToolLogStoreError::StoreFailed("x".to_owned()).message(), "log store write failed: x");
    assert_eq!(ToolLogStoreError::ListFailed("y".to_owned()).message(), "log store list failed: y");
}

fn run_sweep(plan: tool_registry::log_store::SweepPlan, fail_on: Option<&str>) -> (Vec<String>, Vec<String>, Result<usize, ToolLogStoreError>) {
    let mut attempted = Vec::new();
    let (mut flow, mut step) = SweepFlow::begin(plan);
    loop {
        match step {
            SweepStep::DeleteBlob(path) => {
                let answer = if Some(path.as_str()) == fail_on {
                    Err(ToolLogStoreError::DeleteFailed("boom".to_owned()))
                } else {
                    Ok(())
                };
                attempted.push(path);
                (flow, step) = flow.step(answer);
            }
            SweepStep::Finish { purge, outcome } => return (attempted, purge, outcome),
        }
    }
}

fn sweep_plan(expired: &[&str], excess: &[&str]) -> tool_registry::log_store::SweepPlan {
    tool_registry::log_store::SweepPlan {
        expired: expired.iter().map(|s| (*s).to_owned()).collect(),
        excess: excess.iter().map(|s| (*s).to_owned()).collect(),
    }
}

#[test]
fn sweep_flow_deletes_expired_then_excess() {
    let (attempted, purge, outcome) = run_sweep(sweep_plan(&["e1", "e2"], &["x1"]), None);
    assert_eq!(attempted, vec!["e1", "e2", "x1"]);
    assert_eq!(purge, vec!["e1", "e2", "x1"]);
    assert_eq!(outcome, Ok(3));
    let (attempted, purge, outcome) = run_sweep(sweep_plan(&[], &[]), None);
    assert!(attempted.is_empty());
    assert!(purge.is_empty());
    assert_eq!(outcome, Ok(0));
    let (attempted, _, outcome) = run_sweep(sweep_plan(&[], &["x1", "x2"]), None);
    assert_eq!(attempted, vec!["x1", "x2"]);
    assert_eq!(outcome, Ok(2));
}

#[test]
fn sweep_flow_failure_purges_only_the_failing_phase() {
    let (attempted, purge, outcome) = run_sweep(sweep_plan(&["e1", "e2", "e3"], &["x1"]), Some("e2"));
    assert_eq!(attempted, vec!["e1", "e2"]);
    assert_eq!(purge, vec!["e1"]);
    assert_eq!(outcome, Err(ToolLogStoreError::DeleteFailed("boom".to_owned())));
    let (attempted, purge, outcome) = run_sweep(sweep_plan(&["e1"], &["x1", "x2"]), Some("x2"));
    assert_eq!(attempted, vec!["e1", "x1", "x2"]);
    assert_eq!(purge, vec!["x1"]);
    assert!(outcome.is_err());
}

#[test]
fn collect_server_metadata_prefers_index_then_listing() {
    let server = McpServerId::from_uuid(0x22);
    let retention = policy(100, 1);
    let metadata = startup_entry(server, 0, &retention);
    let listing = vec![
        (metadata.object_path().to_owned(), 18u64, 0i64),
        ("tool_logs/t/s/other/not-a-log.txt".to_owned(), 3u64, 0i64),
    ];

    let mut empty = LogMetadataIndex::new();
    assert!(empty.collect_server_metadata(server, None, retention.retention_period).is_none());
    assert!(empty.entries_for_server(server).is_empty());
    let rebuilt = empty
        .collect_server_metadata(server, Some(&listing), retention.retention_period)
        .expect("a listing rebuilds");
    assert_eq!(rebuilt.len(), 1);
    assert_eq!(rebuilt[0].id(), metadata.id());
    assert_eq!(empty.entries_for_server(server).len(), 1, "rebuilt entries are adopted");

    let mut known = LogMetadataIndex::new();
    known.insert(metadata.cloned());
    let found = known
        .collect_server_metadata(server, Some(&Vec::new()), retention.retention_period)
        .expect("the index answers");
    assert_eq!(found.len(), 1);
    assert_eq!(found[0].object_path(), metadata.object_path());
}
