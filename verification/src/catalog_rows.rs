//! Catalog and audit records as a relational store keeps them, and the
//! rules a store-backed catalog applies around its writes: the checks on a
//! sync batch, the duplicate detection against other servers' names, and
//! the reading of a failed write.

use crate::catalog::{dup_before, entry_views, first_dup_before, mixed_batch_text, CatalogEntry, EntryView, PersistedCatalogEntryData, ToolCatalogError};
use crate::health::opt_view;
use crate::ids::{normalize_server_name, CatalogEntryId, McpServerId, McpServerName, TenantId};
use crate::json::JsonValue;
use crate::redact::{redact_error_message, redact_outcome_content, redact_parameters, redact_view, redacted_text};
use crate::routing::{OutcomeView, ToolCallAuditRecord, ToolCallOutcome};
use crate::rows::{failure_text, server_name_error_text, violates, StoreWriteFailure};
use crate::text::{chars_eq, chars_of, push_str, push_uuid, string_from_chars, trim_spec};
use crate::tool::{opt_json_view, McpToolDefinition, ToolView};
use vstd::prelude::*;

verus! {

/// A catalog record as read back from the store.
#[derive(Debug)]
pub struct CatalogEntryRow {
    /// Entry identifier.
    pub id: u128,
    /// Hosting server identifier.
    pub server_id: u128,
    /// Server name at discovery time.
    pub server_name: String,
    /// Tool name.
    pub tool_name: String,
    /// Tool description.
    pub tool_description: String,
    /// Input schema.
    pub input_schema: JsonValue,
    /// Output schema, where one is stored.
    pub output_schema: Option<JsonValue>,
    /// Whether the tool may be invoked.
    pub available: bool,
    /// Discovery time (microseconds since the epoch).
    pub discovered_at: i64,
    /// Last update time (microseconds since the epoch).
    pub updated_at: i64,
}

/// A catalog record to insert into the store.
#[derive(Debug)]
pub struct NewCatalogEntryRow {
    /// Entry identifier.
    pub id: u128,
    /// Owning tenant.
    pub tenant_id: u128,
    /// Hosting server identifier.
    pub server_id: u128,
    /// Server name at discovery time.
    pub server_name: String,
    /// Tool name.
    pub tool_name: String,
    /// Tool description.
    pub tool_description: String,
    /// Input schema.
    pub input_schema: JsonValue,
    /// Output schema, where the tool has one.
    pub output_schema: Option<JsonValue>,
    /// Whether the tool may be invoked.
    pub available: bool,
    /// Discovery time (microseconds since the epoch).
    pub discovered_at: i64,
    /// Last update time (microseconds since the epoch).
    pub updated_at: i64,
}

/// An audit record to insert into the store, with parameters, content and
/// error text redacted.
#[derive(Debug)]
pub struct NewAuditLogRow {
    /// Audit record identifier.
    pub id: u128,
    /// Owning tenant.
    pub tenant_id: u128,
    /// Call identifier.
    pub call_id: u128,
    /// Tool name.
    pub tool_name: String,
    /// Server that handled the call.
    pub server_id: u128,
    /// Redacted call parameters.
    pub parameters: JsonValue,
    /// `success` or `failure`.
    pub outcome: String,
    /// Redacted content of a success.
    pub outcome_content: Option<JsonValue>,
    /// Redacted error text of a failure.
    pub outcome_error: Option<String>,
    /// Call duration in whole milliseconds.
    pub duration_ms: i64,
    /// Call initiation time (microseconds since the epoch).
    pub initiated_at: i64,
    /// Call completion time (microseconds since the epoch).
    pub completed_at: i64,
    /// Object store path of captured stderr.
    pub stderr_log_path: Option<String>,
}

/// The content of a catalog record written for `e` under `tenant`.
pub open spec fn new_row_matches(r: NewCatalogEntryRow, e: EntryView, tenant: TenantId) -> bool {
    &&& r.id == e.id.0
    &&& r.tenant_id == tenant.0
    &&& r.server_id == e.server_id.0
    &&& r.server_name@ == e.server_name
    &&& r.tool_name@ == e.tool.name
    &&& r.tool_description@ == e.tool.description
    &&& r.input_schema@ == e.tool.input_schema
    &&& opt_json_view(r.output_schema) == e.tool.output_schema
    &&& r.available == e.available
    &&& r.discovered_at == e.discovered_at
    &&& r.updated_at == e.updated_at
}

/// Views of a sequence of catalog records to insert.
pub open spec fn new_row_names(s: Seq<NewCatalogEntryRow>) -> Seq<Seq<char>> {
    s.map_values(|r: NewCatalogEntryRow| r.tool_name@)
}

/// The record that inserts `entry` for `tenant_id`.
pub fn entry_to_new_row(entry: &CatalogEntry, tenant_id: TenantId) -> (r: NewCatalogEntryRow)
    ensures
        new_row_matches(r, entry@, tenant_id),
{
    let tool = entry.tool();
    let output_schema = match tool.output_schema() {
        Some(o) => Some(o.cloned()),
        None => None,
    };
    NewCatalogEntryRow {
        id: entry.id().into_inner(),
        tenant_id: tenant_id.0,
        server_id: entry.server_id().into_inner(),
        server_name: entry.server_name().as_str().to_owned(),
        tool_name: tool.name().to_owned(),
        tool_description: tool.description().to_owned(),
        input_schema: tool.input_schema().cloned(),
        output_schema,
        available: entry.available(),
        discovered_at: entry.discovered_at(),
        updated_at: entry.updated_at(),
    }
}

/// The text of the error that building a tool definition from `name` and
/// `description` reports, or `None` when both are non-blank.
pub open spec fn tool_definition_error_text(name: Seq<char>, description: Seq<char>) -> Option<Seq<char>> {
    if trim_spec(name).len() == 0 {
        Some("tool name must not be empty"@)
    } else if trim_spec(description).len() == 0 {
        Some("tool description must not be empty"@)
    } else {
        None
    }
}

/// Rebuilds a catalog entry from a stored record. An invalid server name
/// is refused as invalid persisted data of the field `server_name`, then a
/// blank tool name or description as invalid data of `tool_definition`;
/// otherwise the entry holds the record's values, with the name
/// normalized and the tool's name and description trimmed.
pub fn row_to_entry(row: CatalogEntryRow) -> (r: Result<CatalogEntry, ToolCatalogError>)
    ensures
        match server_name_error_text(row.server_name@) {
            Some(t) => r matches Err(ToolCatalogError::InvalidPersistedData { field, reason }) && field@
                == "server_name"@ && reason@ == t,
            None => match tool_definition_error_text(row.tool_name@, row.tool_description@) {
                Some(t) => r matches Err(ToolCatalogError::InvalidPersistedData { field, reason }) && field@
                    == "tool_definition"@ && reason@ == t,
                None => r matches Ok(e) && e@ == (EntryView {
                    id: CatalogEntryId(row.id),
                    server_id: McpServerId(row.server_id),
                    server_name: normalize_server_name(row.server_name@),
                    tool: ToolView {
                        name: trim_spec(row.tool_name@),
                        description: trim_spec(row.tool_description@),
                        input_schema: row.input_schema@,
                        output_schema: opt_json_view(row.output_schema),
                    },
                    available: row.available,
                    discovered_at: row.discovered_at,
                    updated_at: row.updated_at,
                }),
            },
        },
{
    let server_name = match McpServerName::new(row.server_name.as_str()) {
        Ok(n) => n,
        Err(e) => {
            let text = e.message();
            return Err(ToolCatalogError::invalid_persisted_data("server_name", text.as_str()));
        },
    };
    assert(server_name_error_text(row.server_name@) is None);
    let mut tool = match McpToolDefinition::new(row.tool_name.as_str(), row.tool_description.as_str(), row.input_schema) {
        Ok(t) => t,
        Err(e) => {
            let text = e.message();
            return Err(ToolCatalogError::invalid_persisted_data("tool_definition", text.as_str()));
        },
    };
    if let Some(output) = row.output_schema {
        tool = tool.with_output_schema(output);
    }
    Ok(
        CatalogEntry::from_persisted(
            PersistedCatalogEntryData {
                id: CatalogEntryId::from_uuid(row.id),
                server_id: McpServerId::from_uuid(row.server_id),
                server_name,
                tool,
                available: row.available,
                discovered_at: row.discovered_at,
                updated_at: row.updated_at,
            },
        ),
    )
}

/// The content of the audit record written for `a` under `tenant`: the
/// parameters and a success's content with every string leaf redacted, a
/// failure's text replaced, and the duration in whole milliseconds.
pub open spec fn audit_row_matches(r: NewAuditLogRow, a: crate::routing::AuditView, tenant: TenantId) -> bool {
    &&& r.id == a.id
    &&& r.tenant_id == tenant.0
    &&& r.call_id == a.call_id.0
    &&& r.tool_name@ == a.tool_name
    &&& r.server_id == a.server_id.0
    &&& r.parameters@ == redact_view(a.parameters)
    &&& match a.outcome {
        OutcomeView::Success(c) => r.outcome@ == "success"@ && opt_json_view(r.outcome_content) == Some(
            redact_view(c),
        ) && r.outcome_error is None,
        OutcomeView::Failure(_) => r.outcome@ == "failure"@ && r.outcome_content is None && opt_view(
            r.outcome_error,
        ) == Some(redacted_text()),
    }
    &&& r.duration_ms == a.duration_micros / 1000
    &&& r.initiated_at == a.initiated_at
    &&& r.completed_at == a.completed_at
    &&& opt_view(r.stderr_log_path) == a.stderr_log_path
}

/// The record that inserts an audit record for `tenant_id`, redacted.
pub fn audit_to_new_row(record: &ToolCallAuditRecord, tenant_id: TenantId) -> (r: NewAuditLogRow)
    ensures
        audit_row_matches(r, record@, tenant_id),
{
    let (outcome, outcome_content, outcome_error) = match record.outcome() {
        ToolCallOutcome::Success { content } => (
            String::from_str("success"),
            Some(redact_outcome_content(content)),
            None,
        ),
        ToolCallOutcome::Failure { error } => (
            String::from_str("failure"),
            None,
            Some(redact_error_message(error.as_str())),
        ),
    };
    let millis: u64 = record.duration_micros() / 1000;
    let stderr_log_path = match record.stderr_log_path() {
        Some(p) => Some(p.to_owned()),
        None => None,
    };
    NewAuditLogRow {
        id: record.id(),
        tenant_id: tenant_id.0,
        call_id: record.call_id().into_inner(),
        tool_name: record.tool_name().to_owned(),
        server_id: record.server_id().into_inner(),
        parameters: redact_parameters(record.parameters()),
        outcome,
        outcome_content,
        outcome_error,
        duration_ms: millis as i64,
        initiated_at: record.initiated_at(),
        completed_at: record.completed_at(),
        stderr_log_path,
    }
}

/// Refuses a sync batch holding an entry of another server than
/// `server_id`, naming the first such entry.
pub fn validate_same_server(server_id: McpServerId, entries: &[CatalogEntry]) -> (r: Result<(), ToolCatalogError>)
    ensures
        ({
            let batch = entry_views(entries@);
            &&& (r is Ok <==> forall|i: int| 0 <= i < batch.len() ==> #[trigger] batch[i].server_id == server_id)
            &&& (r matches Err(e) ==> exists|i: int|
                0 <= i < batch.len() && batch[i].server_id != server_id && (forall|j: int|
                    0 <= j < i ==> #[trigger] batch[j].server_id == server_id) && (e matches ToolCatalogError::MixedServerBatch { reason }
                    && reason@ == mixed_batch_text(batch[i].tool.name, batch[i].server_id, server_id)))
        }),
{
    let n = entries.len();
    let ghost batch = entry_views(entries@);
    for i in 0..n
        invariant
            n == entries@.len(),
            batch == entry_views(entries@),
            forall|j: int| 0 <= j < i ==> #[trigger] batch[j].server_id == server_id,
    {
        let e = &entries[i];
        if !e.server_id().same_as(&server_id) {
            let mut reason: Vec<char> = Vec::new();
            push_str(&mut reason, "entry '");
            push_str(&mut reason, e.tool().name());
            push_str(&mut reason, "' belongs to server ");
            push_uuid(&mut reason, e.server_id().into_inner());
            push_str(&mut reason, " but batch targets ");
            push_uuid(&mut reason, server_id.into_inner());
            let ghost ii = i as int;
            assert(batch[ii] == e@);
            assert(reason@ =~= mixed_batch_text(batch[ii].tool.name, batch[ii].server_id, server_id));
            return Err(ToolCatalogError::MixedServerBatch { reason: string_from_chars(reason.as_slice()) });
        }
    }
    Ok(())
}

/// Number of entries of `s` whose tool is named `name`.
pub open spec fn name_count(s: Seq<EntryView>, name: Seq<char>) -> nat
    decreases s.len(),
{
    if s.len() == 0 {
        0
    } else {
        name_count(s.drop_last(), name) + if s.last().tool.name == name {
            1nat
        } else {
            0nat
        }
    }
}

fn count_named(entries: &[CatalogEntry], name: &str) -> (r: usize)
    ensures
        r == name_count(entry_views(entries@), name@),
{
    let n = entries.len();
    let target = chars_of(name);
    let mut c: usize = 0;
    for i in 0..n
        invariant
            n == entries@.len(),
            target@ == name@,
            c == name_count(entry_views(entries@.take(i as int)), name@),
            c <= i,
    {
        let ghost prev = entry_views(entries@.take(i as int));
        assert(entry_views(entries@.take(i + 1)).drop_last() =~= prev);
        assert(entry_views(entries@.take(i + 1)).last() == entries@[i as int]@);
        let en = chars_of(entries[i].tool().name());
        if chars_eq(en.as_slice(), target.as_slice()) {
            c = c + 1;
        }
    }
    assert(entries@.take(n as int) =~= entries@);
    c
}

/// Refuses a sync batch in which a tool name repeats: the first entry
/// whose name an earlier entry has is named, with the number of entries
/// in the batch under that name.
pub fn find_duplicate_entry(entries: &[CatalogEntry]) -> (r: Option<ToolCatalogError>)
    ensures
        ({
            let batch = entry_views(entries@);
            &&& (r is None <==> forall|i: int| 0 <= i < batch.len() ==> !dup_before(batch, i))
            &&& (r matches Some(e) ==> exists|i: int|
                #![trigger batch[i]]
                0 <= i < batch.len() && dup_before(batch, i) && (forall|j: int| 0 <= j < i ==> !dup_before(batch, j))
                    && (e matches ToolCatalogError::DuplicateWithinBatch { id, tool_name, entry_count }
                    && id == batch[i].id && tool_name@ == batch[i].tool.name && entry_count == name_count(
                    batch,
                    batch[i].tool.name,
                )))
        }),
{
    let n = entries.len();
    let ghost batch = entry_views(entries@);
    for i in 0..n
        invariant
            n == entries@.len(),
            batch == entry_views(entries@),
            forall|j: int| 0 <= j < i ==> !dup_before(batch, j),
    {
        if first_dup_before(entries, i) {
            let e = &entries[i];
            let ghost ii = i as int;
            assert(batch[ii] == e@);
            let count = count_named(entries, e.tool().name());
            return Some(
                ToolCatalogError::DuplicateWithinBatch {
                    id: e.id(),
                    tool_name: e.tool().name().to_owned(),
                    entry_count: count,
                },
            );
        }
    }
    None
}

/// The records that insert a sync batch for `tenant_id`, in batch order;
/// a batch with a repeated tool name is refused as
/// [`find_duplicate_entry`] reports it.
pub fn to_new_rows(tenant_id: TenantId, entries: &[CatalogEntry]) -> (r: Result<Vec<NewCatalogEntryRow>, ToolCatalogError>)
    ensures
        ({
            let batch = entry_views(entries@);
            &&& (r is Ok <==> forall|i: int| 0 <= i < batch.len() ==> !dup_before(batch, i))
            &&& (r matches Ok(rows) ==> rows@.len() == batch.len() && forall|i: int|
                0 <= i < batch.len() ==> new_row_matches(#[trigger] rows@[i], batch[i], tenant_id))
            &&& (r matches Err(e) ==> exists|i: int|
                #![trigger batch[i]]
                0 <= i < batch.len() && dup_before(batch, i) && (forall|j: int| 0 <= j < i ==> !dup_before(batch, j))
                    && (e matches ToolCatalogError::DuplicateWithinBatch { id, tool_name, entry_count }
                    && id == batch[i].id && tool_name@ == batch[i].tool.name && entry_count == name_count(
                    batch,
                    batch[i].tool.name,
                )))
        }),
{
    if let Some(err) = find_duplicate_entry(entries) {
        return Err(err);
    }
    let ghost batch = entry_views(entries@);
    let n = entries.len();
    let mut rows: Vec<NewCatalogEntryRow> = Vec::new();
    for i in 0..n
        invariant
            n == entries@.len(),
            batch == entry_views(entries@),
            rows@.len() == i,
            forall|k: int| 0 <= k < i ==> new_row_matches(#[trigger] rows@[k], batch[k], tenant_id),
    {
        let row = entry_to_new_row(&entries[i], tenant_id);
        assert(batch[i as int] == entries@[i as int]@);
        rows.push(row);
    }
    Ok(rows)
}

/// Views of `(tool name, count)` pairs.
pub open spec fn counts_view(c: Seq<(String, usize)>) -> Seq<(Seq<char>, usize)> {
    c.map_values(|p: (String, usize)| (p.0@, p.1))
}

/// Whether pair `i` is the first whose name is `name`.
pub open spec fn first_key_at(counts: Seq<(Seq<char>, usize)>, name: Seq<char>, i: int) -> bool {
    &&& 0 <= i < counts.len()
    &&& counts[i].0 == name
    &&& forall|j: int| 0 <= j < i ==> #[trigger] counts[j].0 != name
}

/// The count paired with `name`, from the first pair with that name.
pub open spec fn count_for(counts: Seq<(Seq<char>, usize)>, name: Seq<char>) -> Option<usize> {
    if exists|i: int| first_key_at(counts, name, i) {
        Some(counts[choose|i: int| first_key_at(counts, name, i)].1)
    } else {
        None
    }
}

/// The count paired with `name`.
pub fn lookup_count(counts: &[(String, usize)], name: &str) -> (r: Option<usize>)
    ensures
        r == count_for(counts_view(counts@), name@),
{
    let ghost cv = counts_view(counts@);
    let target = chars_of(name);
    let n = counts.len();
    for i in 0..n
        invariant
            n == counts@.len(),
            cv == counts_view(counts@),
            target@ == name@,
            forall|j: int| 0 <= j < i ==> #[trigger] cv[j].0 != name@,
    {
        let k = chars_of(counts[i].0.as_str());
        if chars_eq(k.as_slice(), target.as_slice()) {
            let ghost ii = i as int;
            assert(cv[ii] == (counts@[ii].0@, counts@[ii].1));
            assert(first_key_at(cv, name@, ii));
            proof {
                let c = choose|x: int| first_key_at(cv, name@, x);
                assert(first_key_at(cv, name@, c));
                if c < ii {
                    assert(cv[c].0 != name@);
                } else if c > ii {
                    assert(cv[ii].0 != name@);
                }
            }
            return Some(counts[i].1);
        }
        assert(cv[i as int] == (counts@[i as int].0@, counts@[i as int].1));
    }
    proof {
        assert forall|x: int| !first_key_at(cv, name@, x) by {
            if 0 <= x < cv.len() {
                assert(cv[x].0 != name@);
            }
        }
    }
    None
}

/// Every count is below the largest `usize`, so one more can be counted.
pub open spec fn counts_bounded(counts: Seq<(String, usize)>) -> bool {
    forall|k: int| 0 <= k < counts.len() ==> (#[trigger] counts[k]).1 < usize::MAX
}

/// The refusal of a record whose tool name other servers already have:
/// the servers advertising it would be those counted for the name, plus
/// this one.
pub fn duplicate_entry_error(row: &NewCatalogEntryRow, name_counts: &[(String, usize)]) -> (r: ToolCatalogError)
    requires
        counts_bounded(name_counts@),
    ensures
        r matches ToolCatalogError::DuplicateEntry { id, tool_name, server_count } && id == CatalogEntryId(row.id)
            && tool_name@ == row.tool_name@ && server_count == match count_for(counts_view(name_counts@), row.tool_name@) {
            Some(c) => c + 1,
            None => 1,
        },
{
    let found = lookup_count(name_counts, row.tool_name.as_str());
    let count: usize = match found {
        Some(c) => {
            proof {
                let cv = counts_view(name_counts@);
                let k = choose|i: int| first_key_at(cv, row.tool_name@, i);
                assert(first_key_at(cv, row.tool_name@, k));
                assert(cv[k].1 == name_counts@[k].1);
            }
            c
        },
        None => 0,
    };
    ToolCatalogError::DuplicateEntry {
        id: CatalogEntryId::from_uuid(row.id),
        tool_name: row.tool_name.clone(),
        server_count: count + 1,
    }
}

/// Whether record `i` is the first whose tool name has a count.
pub open spec fn first_counted_at(rows: Seq<NewCatalogEntryRow>, counts: Seq<(Seq<char>, usize)>, i: int) -> bool {
    &&& 0 <= i < rows.len()
    &&& count_for(counts, rows[i].tool_name@) is Some
    &&& forall|j: int| 0 <= j < i ==> count_for(counts, (#[trigger] rows[j]).tool_name@) is None
}

/// The refusal of the first record whose tool name other servers already
/// have, by the counts of those names; `None` when no record's name is
/// counted.
pub fn duplicate_entry_from_counts(rows: &[NewCatalogEntryRow], name_counts: &[(String, usize)]) -> (r: Option<
    ToolCatalogError,
>)
    requires
        counts_bounded(name_counts@),
    ensures
        ({
            let cv = counts_view(name_counts@);
            &&& (r is None <==> forall|i: int| 0 <= i < rows@.len() ==> count_for(cv, (#[trigger] rows@[i]).tool_name@) is None)
            &&& (r matches Some(e) ==> exists|i: int|
                first_counted_at(rows@, cv, i) && (e matches ToolCatalogError::DuplicateEntry { id, tool_name, server_count }
                    && id == CatalogEntryId(rows@[i].id) && tool_name@ == rows@[i].tool_name@ && server_count
                    == count_for(cv, rows@[i].tool_name@)->Some_0 + 1))
        }),
{
    let ghost cv = counts_view(name_counts@);
    let n = rows.len();
    for i in 0..n
        invariant
            n == rows@.len(),
            cv == counts_view(name_counts@),
            counts_bounded(name_counts@),
            forall|j: int| 0 <= j < i ==> count_for(cv, (#[trigger] rows@[j]).tool_name@) is None,
    {
        let row = &rows[i];
        if lookup_count(name_counts, row.tool_name.as_str()).is_some() {
            let e = duplicate_entry_error(row, name_counts);
            assert(first_counted_at(rows@, cv, i as int));
            return Some(e);
        }
    }
    None
}

/// Name of the unique index on tool names within a tenant.
pub open spec fn catalog_name_index() -> Seq<char> {
    "idx_mcp_tool_catalog_tenant_tool_name"@
}

/// Whether a violated constraint is the unique index on tool names.
pub fn is_catalog_name_unique_violation(constraint: Option<&str>) -> (r: bool)
    ensures
        r <==> (constraint matches Some(c) && c@ == catalog_name_index()),
{
    match constraint {
        Some(c) => {
            let v = chars_of(c);
            let w = chars_of("idx_mcp_tool_catalog_tenant_tool_name");
            chars_eq(v.as_slice(), w.as_slice())
        },
        None => false,
    }
}

/// Whether a failed sync is worth counting the conflicting names again:
/// only a violation of the tool-name index can be a duplicate entry.
pub fn needs_conflict_recount(failure: &StoreWriteFailure) -> (r: bool)
    ensures
        r <==> violates(*failure, catalog_name_index()),
{
    match failure {
        StoreWriteFailure::UniqueViolation { constraint: Some(c), message: _ } => is_catalog_name_unique_violation(
            Some(c.as_str()),
        ),
        _ => false,
    }
}

/// The catalog error for a failed sync write of `rows`. A violation of the
/// tool-name index, for which the conflicting names could be counted again
/// (`refreshed_counts`), is the duplicate entry those counts show, if
/// they show one; anything else is a failed `transaction` with the
/// store's text.
pub fn map_sync_rows_error(
    rows: &[NewCatalogEntryRow],
    failure: &StoreWriteFailure,
    refreshed_counts: Option<&[(String, usize)]>,
) -> (r: ToolCatalogError)
    requires
        refreshed_counts matches Some(c) ==> counts_bounded(c@),
    ensures
        ({
            let dup = violates(*failure, catalog_name_index()) && (refreshed_counts matches Some(c) && exists|i: int|
                first_counted_at(rows@, counts_view(c@), i));
            &&& dup ==> exists|i: int|
                first_counted_at(rows@, counts_view(refreshed_counts->Some_0@), i) && (r matches ToolCatalogError::DuplicateEntry {
                    id,
                    tool_name,
                    server_count,
                } && id == CatalogEntryId(rows@[i].id) && tool_name@ == rows@[i].tool_name@ && server_count
                    == count_for(counts_view(refreshed_counts->Some_0@), rows@[i].tool_name@)->Some_0 + 1)
            &&& !dup ==> (r matches ToolCatalogError::Persistence { operation, reason } && operation@ == "transaction"@
                && reason@ == failure_text(*failure))
        }),
{
    if needs_conflict_recount(failure) {
        if let Some(counts) = refreshed_counts {
            if let Some(e) = duplicate_entry_from_counts(rows, counts) {
                return e;
            }
            proof {
                let cv = counts_view(counts@);
                assert forall|i: int| !first_counted_at(rows@, cv, i) by {
                    if 0 <= i < rows@.len() {
                        assert(count_for(cv, rows@[i].tool_name@) is None);
                    }
                }
            }
        }
    }
    let message = match failure {
        StoreWriteFailure::UniqueViolation { constraint: _, message } => message,
        StoreWriteFailure::Other { message } => message,
    };
    ToolCatalogError::persistence("transaction", message.as_str())
}

/// A stored catalog record reads back as the entry it was written from:
/// the record that [`entry_to_new_row`] makes of an entry, read back with
/// the same values, passes every check of [`row_to_entry`] and rebuilds
/// the entry. The entry's server name is valid and its tool's name and
/// description are trimmed and non-blank, as every entry this library
/// builds has them.
pub proof fn lemma_catalog_row_roundtrip(e: EntryView, tenant: TenantId, written: NewCatalogEntryRow, read: CatalogEntryRow)
    requires
        crate::ids::valid_server_name(e.server_name),
        e.tool.name.len() > 0 && trim_spec(e.tool.name) == e.tool.name,
        e.tool.description.len() > 0 && trim_spec(e.tool.description) == e.tool.description,
        new_row_matches(written, e, tenant),
        read.id == written.id,
        read.server_id == written.server_id,
        read.server_name@ == written.server_name@,
        read.tool_name@ == written.tool_name@,
        read.tool_description@ == written.tool_description@,
        read.input_schema@ == written.input_schema@,
        opt_json_view(read.output_schema) == opt_json_view(written.output_schema),
        read.available == written.available,
        read.discovered_at == written.discovered_at,
        read.updated_at == written.updated_at,
    ensures
        server_name_error_text(read.server_name@) is None,
        tool_definition_error_text(read.tool_name@, read.tool_description@) is None,
        (EntryView {
            id: CatalogEntryId(read.id),
            server_id: McpServerId(read.server_id),
            server_name: normalize_server_name(read.server_name@),
            tool: ToolView {
                name: trim_spec(read.tool_name@),
                description: trim_spec(read.tool_description@),
                input_schema: read.input_schema@,
                output_schema: opt_json_view(read.output_schema),
            },
            available: read.available,
            discovered_at: read.discovered_at,
            updated_at: read.updated_at,
        }) == e,
{
    crate::rows::lemma_valid_name_normalized(e.server_name);
}

} // verus!
