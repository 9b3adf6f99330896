//! Tool catalog entries and the per-tenant catalog state: entries linking
//! discovered tools to the servers that host them, and the audit trail.

use crate::ids::{uuid_text_spec, CatalogEntryId, McpServerId, McpServerName};
use crate::routing::{AuditView, ToolCallAuditRecord};
use crate::text::{chars_of, decimal_spec, push_all, push_decimal, push_str, push_uuid, string_from_chars};
use crate::tool::{McpToolDefinition, ToolView};
use vstd::prelude::*;

verus! {

/// Abstract content of a catalog entry.
pub struct EntryView {
    /// Entry identifier.
    pub id: CatalogEntryId,
    /// Hosting server.
    pub server_id: McpServerId,
    /// Hosting server name.
    pub server_name: Seq<char>,
    /// Tool definition.
    pub tool: ToolView,
    /// Whether the tool may be invoked.
    pub available: bool,
    /// First discovery time.
    pub discovered_at: i64,
    /// Latest update time.
    pub updated_at: i64,
}

/// All fields needed to reconstruct a [`CatalogEntry`] from persisted
/// storage.
#[derive(Debug, PartialEq, Eq)]
pub struct PersistedCatalogEntryData {
    /// Catalog entry identifier.
    pub id: CatalogEntryId,
    /// Hosting server identifier.
    pub server_id: McpServerId,
    /// Hosting server name.
    pub server_name: McpServerName,
    /// Tool definition.
    pub tool: McpToolDefinition,
    /// Whether the tool is currently available.
    pub available: bool,
    /// Timestamp when the tool was first discovered.
    pub discovered_at: i64,
    /// Timestamp of the latest update.
    pub updated_at: i64,
}

/// A tool discovered from an MCP server and persisted in the catalog.
#[derive(Debug, PartialEq, Eq)]
pub struct CatalogEntry {
    id: CatalogEntryId,
    server_id: McpServerId,
    server_name: McpServerName,
    tool: McpToolDefinition,
    available: bool,
    discovered_at: i64,
    updated_at: i64,
}

impl View for CatalogEntry {
    type V = EntryView;

    closed spec fn view(&self) -> EntryView {
        EntryView {
            id: self.id,
            server_id: self.server_id,
            server_name: self.server_name@,
            tool: self.tool@,
            available: self.available,
            discovered_at: self.discovered_at,
            updated_at: self.updated_at,
        }
    }
}

impl CatalogEntry {
    /// Creates a new, available catalog entry for a discovered tool, with a
    /// fresh random identifier and both timestamps set to `now`.
    pub fn new(server_id: McpServerId, server_name: McpServerName, tool: McpToolDefinition, now: i64) -> (r: Self)
        ensures
            crate::ids::is_v4_uuid(r@.id.0),
            r@.server_id == server_id,
            r@.server_name == server_name@,
            r@.tool == tool@,
            r@.available,
            r@.discovered_at == now,
            r@.updated_at == now,
    {
        CatalogEntry {
            id: CatalogEntryId::new(),
            server_id,
            server_name,
            tool,
            available: true,
            discovered_at: now,
            updated_at: now,
        }
    }

    /// Reconstructs a catalog entry from persisted storage.
    pub fn from_persisted(data: PersistedCatalogEntryData) -> (r: Self)
        ensures
            r@ == (EntryView {
                id: data.id,
                server_id: data.server_id,
                server_name: data.server_name@,
                tool: data.tool@,
                available: data.available,
                discovered_at: data.discovered_at,
                updated_at: data.updated_at,
            }),
    {
        CatalogEntry {
            id: data.id,
            server_id: data.server_id,
            server_name: data.server_name,
            tool: data.tool,
            available: data.available,
            discovered_at: data.discovered_at,
            updated_at: data.updated_at,
        }
    }

    /// Returns the catalog entry identifier.
    pub fn id(&self) -> (r: CatalogEntryId)
        ensures
            r == self@.id,
    {
        self.id
    }

    /// Returns the hosting server identifier.
    pub fn server_id(&self) -> (r: McpServerId)
        ensures
            r == self@.server_id,
    {
        self.server_id
    }

    /// Returns the hosting server name.
    pub fn server_name(&self) -> (r: &McpServerName)
        ensures
            r@ == self@.server_name,
    {
        &self.server_name
    }

    /// Returns the tool definition.
    pub fn tool(&self) -> (r: &McpToolDefinition)
        ensures
            r@ == self@.tool,
    {
        &self.tool
    }

    /// Returns whether the tool is currently available for invocation.
    pub fn available(&self) -> (r: bool)
        ensures
            r == self@.available,
    {
        self.available
    }

    /// Returns the timestamp when the tool was first discovered.
    pub fn discovered_at(&self) -> (r: i64)
        ensures
            r == self@.discovered_at,
    {
        self.discovered_at
    }

    /// Returns the timestamp of the latest update.
    pub fn updated_at(&self) -> (r: i64)
        ensures
            r == self@.updated_at,
    {
        self.updated_at
    }

    /// Marks the tool as available.
    pub fn mark_available(&mut self, now: i64)
        ensures
            final(self)@ == (EntryView { available: true, updated_at: now, ..old(self)@ }),
    {
        self.available = true;
        self.updated_at = now;
    }

    /// Marks the tool as unavailable.
    pub fn mark_unavailable(&mut self, now: i64)
        ensures
            final(self)@ == (EntryView { available: false, updated_at: now, ..old(self)@ }),
    {
        self.available = false;
        self.updated_at = now;
    }

    /// Replaces the tool definition with an updated version.
    pub fn update_tool(&mut self, tool: McpToolDefinition, now: i64)
        ensures
            final(self)@ == (EntryView { tool: tool@, updated_at: now, ..old(self)@ }),
    {
        self.tool = tool;
        self.updated_at = now;
    }

    /// A deep copy of this entry.
    pub fn cloned(&self) -> (r: Self)
        ensures
            r@ == self@,
    {
        CatalogEntry {
            id: self.id,
            server_id: self.server_id,
            server_name: self.server_name.cloned(),
            tool: self.tool.cloned(),
            available: self.available,
            discovered_at: self.discovered_at,
            updated_at: self.updated_at,
        }
    }
}

/// Errors returned by tool catalog persistence operations.
#[derive(Debug, Clone, PartialEq, Eq)]
pub enum ToolCatalogError {
    /// A catalog entry with the same tool name exists on another server.
    DuplicateEntry {
        /// Identifier of the entry that triggered the duplicate detection.
        id: CatalogEntryId,
        /// Conflicting tool name.
        tool_name: String,
        /// Number of servers advertising the conflicting tool name.
        server_count: usize,
    },
    /// A single server reported the same tool name more than once in a batch.
    DuplicateWithinBatch {
        /// Identifier of the entry that triggered the duplicate detection.
        id: CatalogEntryId,
        /// Conflicting tool name.
        tool_name: String,
        /// Number of times the tool name appeared in the batch.
        entry_count: usize,
    },
    /// No catalog entry matched the query.
    NotFound(String),
    /// A batch of entries contained invalid or inconsistent data.
    MixedServerBatch {
        /// Reason for the rejection.
        reason: String,
    },
    /// Persisted data could not be reconstructed into domain types.
    InvalidPersistedData {
        /// Name of the field that failed reconstruction.
        field: String,
        /// Reason for the failure.
        reason: String,
    },
    /// A persistence-layer operation failed.
    Persistence {
        /// Operation that failed (e.g. "insert", "select").
        operation: String,
        /// Reason for the failure.
        reason: String,
    },
}

impl ToolCatalogError {
    /// Wraps a persistence error from a catalogue adapter.
    pub fn persistence(operation: &str, reason: &str) -> (r: Self)
        ensures
            r matches ToolCatalogError::Persistence { operation: o, reason: m } && o@ == operation@
                && m@ == reason@,
    {
        ToolCatalogError::Persistence { operation: operation.to_owned(), reason: reason.to_owned() }
    }

    /// Wraps an invalid-persisted-data error from a catalogue adapter.
    pub fn invalid_persisted_data(field: &str, reason: &str) -> (r: Self)
        ensures
            r matches ToolCatalogError::InvalidPersistedData { field: f, reason: m } && f@ == field@
                && m@ == reason@,
    {
        ToolCatalogError::InvalidPersistedData { field: field.to_owned(), reason: reason.to_owned() }
    }
}

/// The human-readable text of a catalog error.
pub open spec fn catalog_error_text(e: ToolCatalogError) -> Seq<char> {
    match e {
        ToolCatalogError::DuplicateEntry { id, tool_name, server_count } => "duplicate catalog entry '"@
            + tool_name@ + "' found on "@ + decimal_spec(server_count as nat) + " servers (entry: "@
            + uuid_text_spec(id.0) + ")"@,
        ToolCatalogError::DuplicateWithinBatch { id, tool_name, entry_count } => "duplicate tool '"@
            + tool_name@ + "' appeared "@ + decimal_spec(entry_count as nat) + " times in one batch (entry: "@
            + uuid_text_spec(id.0) + ")"@,
        ToolCatalogError::NotFound(m) => "catalog entry not found: "@ + m@,
        ToolCatalogError::MixedServerBatch { reason } => "mixed server batch: "@ + reason@,
        ToolCatalogError::InvalidPersistedData { field, reason } =>
            "invalid persisted catalog data for field '"@ + field@ + "': "@ + reason@,
        ToolCatalogError::Persistence { operation, reason } => "catalog persistence error during '"@
            + operation@ + "': "@ + reason@,
    }
}

impl ToolCatalogError {
    /// The human-readable text of this error.
    pub fn message(&self) -> (r: String)
        ensures
            r@ == catalog_error_text(*self),
    {
        let mut v: Vec<char> = Vec::new();
        match self {
            ToolCatalogError::DuplicateEntry { id, tool_name, server_count } => {
                push_str(&mut v, "duplicate catalog entry '");
                push_str(&mut v, tool_name.as_str());
                push_str(&mut v, "' found on ");
                push_decimal(&mut v, *server_count as u64);
                push_str(&mut v, " servers (entry: ");
                push_uuid(&mut v, id.0);
                push_str(&mut v, ")");
            },
            ToolCatalogError::DuplicateWithinBatch { id, tool_name, entry_count } => {
                push_str(&mut v, "duplicate tool '");
                push_str(&mut v, tool_name.as_str());
                push_str(&mut v, "' appeared ");
                push_decimal(&mut v, *entry_count as u64);
                push_str(&mut v, " times in one batch (entry: ");
                push_uuid(&mut v, id.0);
                push_str(&mut v, ")");
            },
            ToolCatalogError::NotFound(m) => {
                push_str(&mut v, "catalog entry not found: ");
                push_str(&mut v, m.as_str());
            },
            ToolCatalogError::MixedServerBatch { reason } => {
                push_str(&mut v, "mixed server batch: ");
                push_str(&mut v, reason.as_str());
            },
            ToolCatalogError::InvalidPersistedData { field, reason } => {
                push_str(&mut v, "invalid persisted catalog data for field '");
                push_str(&mut v, field.as_str());
                push_str(&mut v, "': ");
                push_str(&mut v, reason.as_str());
            },
            ToolCatalogError::Persistence { operation, reason } => {
                push_str(&mut v, "catalog persistence error during '");
                push_str(&mut v, operation.as_str());
                push_str(&mut v, "': ");
                push_str(&mut v, reason.as_str());
            },
        }
        assert(v@ =~= catalog_error_text(*self));
        string_from_chars(v.as_slice())
    }
}

/// Views of a sequence of entries.
pub open spec fn entry_views(s: Seq<CatalogEntry>) -> Seq<EntryView> {
    s.map_values(|e: CatalogEntry| e@)
}

/// Number of entries of servers other than `server_id` whose tool is named
/// `name`.
pub open spec fn other_count(s: Seq<EntryView>, server_id: McpServerId, name: Seq<char>) -> nat
    decreases s.len(),
{
    if s.len() == 0 {
        0
    } else {
        other_count(s.drop_last(), server_id, name) + if s.last().server_id != server_id
            && s.last().tool.name == name {
            1nat
        } else {
            0nat
        }
    }
}

/// Whether an earlier batch entry has the same tool name as entry `i`.
pub open spec fn dup_before(batch: Seq<EntryView>, i: int) -> bool {
    exists|j: int| 0 <= j < i && #[trigger] batch[j].tool.name == batch[i].tool.name
}

/// Whether batch entry `i` conflicts: a repeated name within the batch, or
/// a name that another server already has.
pub open spec fn conflicts(current: Seq<EntryView>, server_id: McpServerId, batch: Seq<EntryView>, i: int) -> bool {
    dup_before(batch, i) || other_count(current, server_id, batch[i].tool.name) > 0
}

/// Text of the mixed-batch rejection for an entry of another server.
pub open spec fn mixed_batch_text(tool_name: Seq<char>, entry_server: McpServerId, target: McpServerId) -> Seq<char> {
    "entry '"@ + tool_name + "' belongs to server "@ + uuid_text_spec(entry_server.0)
        + " but batch targets "@ + uuid_text_spec(target.0)
}

/// No two entries have the same tool name.
pub open spec fn names_unique(s: Seq<EntryView>) -> bool {
    forall|i: int, j: int| 0 <= i < j < s.len() ==> (#[trigger] s[i]).tool.name != (#[trigger] s[j]).tool.name
}

/// An entry after its server's tools were marked available or not at
/// `now`; entries of other servers are unchanged.
pub open spec fn marked(e: EntryView, server_id: McpServerId, available: bool, now: i64) -> EntryView {
    if e.server_id == server_id {
        EntryView { available: available, updated_at: now, ..e }
    } else {
        e
    }
}

/// Entries whose tool is named `name`, in order.
pub open spec fn named(s: Seq<EntryView>, name: Seq<char>) -> Seq<EntryView> {
    s.filter(|e: EntryView| e.tool.name == name)
}

/// No two entries have the same identifier.
pub open spec fn ids_unique(s: Seq<EntryView>) -> bool {
    forall|i: int, j: int| 0 <= i < j < s.len() ==> (#[trigger] s[i]).id != (#[trigger] s[j]).id
}

/// Whether an entry of `s` has the identifier `id`.
pub open spec fn has_entry_id(s: Seq<EntryView>, id: CatalogEntryId) -> bool {
    exists|j: int| 0 <= j < s.len() && #[trigger] s[j].id == id
}

/// The entries of other servers than `server_id` that a sync of `batch`
/// keeps: those whose identifier no batch entry has, in order.
pub open spec fn kept(s: Seq<EntryView>, server_id: McpServerId, batch: Seq<EntryView>) -> Seq<EntryView> {
    s.filter(|e: EntryView| e.server_id != server_id && !has_entry_id(batch, e.id))
}

/// The batch with one entry per identifier: a later entry replaces an
/// earlier one with the same identifier, and stands where it stands.
pub open spec fn by_last_id(b: Seq<EntryView>) -> Seq<EntryView>
    decreases b.len(),
{
    if b.len() == 0 {
        Seq::empty()
    } else {
        by_last_id(b.drop_last()).filter(|e: EntryView| e.id != b.last().id).push(b.last())
    }
}

/// The entries after an accepted sync of `batch` for `server_id` over
/// `current`: entries are held by identifier, so the kept entries of other
/// servers followed by the batch, one entry per identifier.
pub open spec fn synced(current: Seq<EntryView>, server_id: McpServerId, batch: Seq<EntryView>) -> Seq<EntryView> {
    kept(current, server_id, batch) + by_last_id(batch)
}

/// The entries a filter keeps satisfy the predicate and come from the
/// list; unique names and unique identifiers are kept.
proof fn lemma_filter_props(s: Seq<EntryView>, p: spec_fn(EntryView) -> bool)
    ensures
        forall|i: int|
            0 <= i < s.filter(p).len() ==> p(#[trigger] s.filter(p)[i]) && exists|j: int|
                0 <= j < s.len() && s[j] == s.filter(p)[i],
        names_unique(s) ==> names_unique(s.filter(p)),
        ids_unique(s) ==> ids_unique(s.filter(p)),
    decreases s.len(),
{
    reveal(Seq::filter);
    if s.len() > 0 {
        let t = s.drop_last();
        lemma_filter_props(t, p);
        let ft = t.filter(p);
        let fs = s.filter(p);
        let last = s.last();
        assert forall|i: int, j: int| 0 <= i < j < t.len() implies (#[trigger] t[i]).tool.name
            == s[i].tool.name && (#[trigger] t[j]).id == s[j].id by {}
        assert(names_unique(s) ==> names_unique(t)) by {
            if names_unique(s) {
                assert forall|i: int, j: int| 0 <= i < j < t.len() implies (#[trigger] t[i]).tool.name
                    != (#[trigger] t[j]).tool.name by {
                    assert(t[i] == s[i] && t[j] == s[j]);
                }
            }
        }
        assert(ids_unique(s) ==> ids_unique(t)) by {
            if ids_unique(s) {
                assert forall|i: int, j: int| 0 <= i < j < t.len() implies (#[trigger] t[i]).id
                    != (#[trigger] t[j]).id by {
                    assert(t[i] == s[i] && t[j] == s[j]);
                }
            }
        }
        if p(last) {
            assert(fs == ft.push(last));
            assert forall|i: int| 0 <= i < fs.len() implies p(#[trigger] fs[i]) && exists|j: int|
                0 <= j < s.len() && s[j] == fs[i] by {
                if i == ft.len() {
                    assert(s[s.len() - 1] == fs[i]);
                } else {
                    assert(fs[i] == ft[i]);
                    let j = choose|j: int| 0 <= j < t.len() && t[j] == ft[i];
                    assert(s[j] == t[j]);
                }
            }
            if names_unique(s) {
                assert forall|i: int, j: int| 0 <= i < j < fs.len() implies (#[trigger] fs[i]).tool.name
                    != (#[trigger] fs[j]).tool.name by {
                    if j == ft.len() {
                        let k = choose|k: int| 0 <= k < t.len() && t[k] == ft[i];
                        assert(s[k] == t[k]);
                        assert(s[k].tool.name != s[s.len() - 1].tool.name);
                    } else {
                        assert(fs[i] == ft[i] && fs[j] == ft[j]);
                    }
                }
            }
            if ids_unique(s) {
                assert forall|i: int, j: int| 0 <= i < j < fs.len() implies (#[trigger] fs[i]).id
                    != (#[trigger] fs[j]).id by {
                    if j == ft.len() {
                        let k = choose|k: int| 0 <= k < t.len() && t[k] == ft[i];
                        assert(s[k] == t[k]);
                        assert(s[k].id != s[s.len() - 1].id);
                    } else {
                        assert(fs[i] == ft[i] && fs[j] == ft[j]);
                    }
                }
            }
        } else {
            assert(fs == ft);
            assert forall|i: int| 0 <= i < fs.len() implies p(#[trigger] fs[i]) && exists|j: int|
                0 <= j < s.len() && s[j] == fs[i] by {
                let j = choose|j: int| 0 <= j < t.len() && t[j] == ft[i];
                assert(s[j] == t[j]);
            }
        }
    }
}

/// Every entry that `by_last_id` keeps comes from the batch; it keeps one
/// entry per identifier, keeps unique names, and keeps every entry that
/// no later entry replaces.
proof fn lemma_by_last_id_props(b: Seq<EntryView>)
    ensures
        ids_unique(by_last_id(b)),
        names_unique(b) ==> names_unique(by_last_id(b)),
        forall|i: int| 0 <= i < by_last_id(b).len() ==> exists|j: int| 0 <= j < b.len() && b[j] == #[trigger] by_last_id(b)[i],
        forall|i: int|
            0 <= i < b.len() && (forall|j: int| i < j < b.len() ==> (#[trigger] b[j]).id != b[i].id)
                ==> by_last_id(b).contains(#[trigger] b[i]),
    decreases b.len(),
{
    if b.len() > 0 {
        let t = b.drop_last();
        let last = b.last();
        lemma_by_last_id_props(t);
        let dt = by_last_id(t);
        let p = |e: EntryView| e.id != last.id;
        let f = dt.filter(p);
        lemma_filter_props(dt, p);
        let d = by_last_id(b);
        assert(d == f.push(last));
        assert forall|i: int, j: int| 0 <= i < j < d.len() implies (#[trigger] d[i]).id != (#[trigger] d[j]).id by {
            if j == f.len() {
                assert(p(f[i]));
            } else {
                assert(d[i] == f[i] && d[j] == f[j]);
            }
        }
        assert forall|i: int| 0 <= i < d.len() implies exists|j: int| 0 <= j < b.len() && b[j] == #[trigger] d[i] by {
            if i == f.len() {
                assert(b[b.len() - 1] == d[i]);
            } else {
                let k = choose|k: int| 0 <= k < dt.len() && dt[k] == f[i];
                let m = choose|m: int| 0 <= m < t.len() && t[m] == dt[k];
                assert(b[m] == t[m]);
            }
        }
        if names_unique(b) {
            assert(names_unique(t)) by {
                assert forall|i: int, j: int| 0 <= i < j < t.len() implies (#[trigger] t[i]).tool.name
                    != (#[trigger] t[j]).tool.name by {
                    assert(t[i] == b[i] && t[j] == b[j]);
                }
            }
            assert forall|i: int, j: int| 0 <= i < j < d.len() implies (#[trigger] d[i]).tool.name
                != (#[trigger] d[j]).tool.name by {
                if j == f.len() {
                    let k = choose|k: int| 0 <= k < dt.len() && dt[k] == f[i];
                    let m = choose|m: int| 0 <= m < t.len() && t[m] == dt[k];
                    assert(b[m] == t[m]);
                    assert(b[m].tool.name != b[b.len() - 1].tool.name);
                } else {
                    assert(d[i] == f[i] && d[j] == f[j]);
                }
            }
        }
        assert forall|i: int|
            0 <= i < b.len() && (forall|j: int| i < j < b.len() ==> (#[trigger] b[j]).id != b[i].id) implies d.contains(
            #[trigger] b[i],
        ) by {
            if i == b.len() - 1 {
                assert(d[f.len() as int] == b[i]);
            } else {
                assert(t[i] == b[i]);
                assert forall|j: int| i < j < t.len() implies (#[trigger] t[j]).id != t[i].id by {
                    assert(t[j] == b[j]);
                }
                assert(dt.contains(t[i]));
                let k = choose|k: int| 0 <= k < dt.len() && dt[k] == t[i];
                assert(b[b.len() - 1].id != b[i].id);
                dt.lemma_filter_contains_rev(p, dt[k]);
                assert(f.contains(b[i]));
                let m = choose|m: int| 0 <= m < f.len() && f[m] == b[i];
                assert(d[m] == f[m]);
            }
        }
    }
}

/// An entry of another server than `server_id` counts toward its name.
proof fn lemma_other_count_pos(s: Seq<EntryView>, server_id: McpServerId, j: int)
    requires
        0 <= j < s.len(),
        s[j].server_id != server_id,
    ensures
        other_count(s, server_id, s[j].tool.name) > 0,
    decreases s.len(),
{
    if j < s.len() - 1 {
        lemma_other_count_pos(s.drop_last(), server_id, j);
        assert(s.drop_last()[j] == s[j]);
    }
}

/// A successful sync keeps tool names and entry identifiers unique across
/// the catalog: if they were unique before, they are unique after the
/// entries of `server_id` are replaced by a batch that `sync_server_tools`
/// accepts.
pub proof fn lemma_sync_keeps_names_unique(
    current: Seq<EntryView>,
    server_id: McpServerId,
    batch: Seq<EntryView>,
)
    requires
        names_unique(current),
        ids_unique(current),
        sync_accepted(current, server_id, batch),
    ensures
        names_unique(synced(current, server_id, batch)),
        ids_unique(synced(current, server_id, batch)),
{
    let p = |e: EntryView| e.server_id != server_id && !has_entry_id(batch, e.id);
    let k = kept(current, server_id, batch);
    lemma_filter_props(current, p);
    assert(names_unique(batch)) by {
        assert forall|i: int, j: int| 0 <= i < j < batch.len() implies (#[trigger] batch[i]).tool.name
            != (#[trigger] batch[j]).tool.name by {
            assert(!conflicts(current, server_id, batch, j));
            assert(!dup_before(batch, j));
        }
    }
    lemma_by_last_id_props(batch);
    let d = by_last_id(batch);
    let c = synced(current, server_id, batch);
    assert forall|i: int, j: int| 0 <= i < j < c.len() implies (#[trigger] c[i]).tool.name != (#[trigger] c[j]).tool.name
        && c[i].id != c[j].id by {
        if j < k.len() {
            assert(c[i] == k[i] && c[j] == k[j]);
        } else if i >= k.len() {
            assert(c[i] == d[i - k.len()] && c[j] == d[j - k.len()]);
        } else {
            assert(c[i] == k[i] && c[j] == d[j - k.len()]);
            assert(p(k[i]));
            let a = choose|a: int| 0 <= a < current.len() && current[a] == k[i];
            lemma_other_count_pos(current, server_id, a);
            let m = choose|m: int| 0 <= m < batch.len() && batch[m] == d[j - k.len()];
            assert(!conflicts(current, server_id, batch, m));
            if c[i].id == c[j].id {
                assert(batch[m].id == k[i].id);
                assert(has_entry_id(batch, k[i].id));
            }
        }
    }
}

/// With unique names, a lookup by name finds at most one entry.
pub proof fn lemma_unique_names_lookup(s: Seq<EntryView>, name: Seq<char>)
    requires
        names_unique(s),
    ensures
        named(s, name).len() <= 1,
    decreases s.len(),
{
    reveal(Seq::filter);
    if s.len() > 0 {
        let t = s.drop_last();
        assert(names_unique(t)) by {
            assert forall|i: int, j: int| 0 <= i < j < t.len() implies (#[trigger] t[i]).tool.name
                != (#[trigger] t[j]).tool.name by {
                assert(t[i] == s[i] && t[j] == s[j]);
            }
        }
        lemma_unique_names_lookup(t, name);
        if s.last().tool.name == name {
            assert forall|i: int| 0 <= i < t.len() implies (#[trigger] t[i]).tool.name != name by {
                assert(t[i] == s[i]);
                assert(s[i].tool.name != s[s.len() - 1].tool.name);
            }
            lemma_named_empty(t, name);
        }
    }
}

/// With unique names, the lookup of an entry's name finds that entry alone.
pub proof fn lemma_unique_names_find(s: Seq<EntryView>, k: int)
    requires
        names_unique(s),
        0 <= k < s.len(),
    ensures
        named(s, s[k].tool.name) == seq![s[k]],
    decreases s.len(),
{
    reveal(Seq::filter);
    let n = s[k].tool.name;
    let t = s.drop_last();
    assert(names_unique(t)) by {
        assert forall|i: int, j: int| 0 <= i < j < t.len() implies (#[trigger] t[i]).tool.name
            != (#[trigger] t[j]).tool.name by {
            assert(t[i] == s[i] && t[j] == s[j]);
        }
    }
    if k == s.len() - 1 {
        assert forall|i: int| 0 <= i < t.len() implies (#[trigger] t[i]).tool.name != n by {
            assert(t[i] == s[i]);
        }
        lemma_named_empty(t, n);
        assert(named(s, n) =~= named(t, n).push(s[k]));
    } else {
        assert(t[k] == s[k]);
        lemma_unique_names_find(t, k);
        assert(s[s.len() - 1].tool.name != n);
        assert(named(s, n) =~= named(t, n));
    }
}

/// What a sync writes is what a lookup reads: after a sync that the
/// catalog rules accept, over a catalog with unique names and identifiers,
/// the lookup of the name of an entry of the batch that no later batch
/// entry replaces (by its identifier) finds that entry, and only it.
pub proof fn lemma_sync_then_find(current: Seq<EntryView>, server_id: McpServerId, batch: Seq<EntryView>, i: int)
    requires
        names_unique(current),
        ids_unique(current),
        sync_accepted(current, server_id, batch),
        0 <= i < batch.len(),
        forall|j: int| i < j < batch.len() ==> (#[trigger] batch[j]).id != batch[i].id,
    ensures
        named(synced(current, server_id, batch), batch[i].tool.name) == seq![batch[i]],
{
    lemma_sync_keeps_names_unique(current, server_id, batch);
    lemma_by_last_id_props(batch);
    let k = kept(current, server_id, batch);
    let d = by_last_id(batch);
    let c = synced(current, server_id, batch);
    assert(d.contains(batch[i]));
    let m = choose|m: int| 0 <= m < d.len() && d[m] == batch[i];
    assert(c[k.len() + m] == batch[i]);
    lemma_unique_names_find(c, k.len() + m);
}

proof fn lemma_named_empty(s: Seq<EntryView>, name: Seq<char>)
    requires
        forall|i: int| 0 <= i < s.len() ==> (#[trigger] s[i]).tool.name != name,
    ensures
        named(s, name).len() == 0,
    decreases s.len(),
{
    reveal(Seq::filter);
    if s.len() > 0 {
        let t = s.drop_last();
        assert forall|i: int| 0 <= i < t.len() implies (#[trigger] t[i]).tool.name != name by {
            assert(t[i] == s[i]);
        }
        lemma_named_empty(t, name);
        assert(s[s.len() - 1].tool.name != name);
    }
}

/// Whether the catalog rules accept a sync of `batch` for `server_id` over
/// the entries `current`: every entry belongs to the server and none
/// conflicts.
pub open spec fn sync_accepted(current: Seq<EntryView>, server_id: McpServerId, batch: Seq<EntryView>) -> bool {
    &&& forall|i: int| 0 <= i < batch.len() ==> #[trigger] batch[i].server_id == server_id
    &&& forall|i: int| 0 <= i < batch.len() ==> !conflicts(current, server_id, batch, i)
}

/// Whether `e` is what the catalog rules report when refusing a sync of
/// `batch` for `server_id` over `current`: the first entry of another
/// server (`MixedServerBatch`), or else, every entry belonging to the
/// server, the first conflicting entry, as a
/// name repeated within the batch (`DuplicateWithinBatch`) or a name
/// another server has (`DuplicateEntry`, counting the servers that would
/// advertise it).
pub open spec fn sync_refusal(current: Seq<EntryView>, server_id: McpServerId, batch: Seq<EntryView>, e: ToolCatalogError) -> bool {
    match e {
        ToolCatalogError::MixedServerBatch { reason } => exists|i: int|
            0 <= i < batch.len() && batch[i].server_id != server_id && (forall|j: int|
                0 <= j < i ==> #[trigger] batch[j].server_id == server_id) && reason@ == mixed_batch_text(
                batch[i].tool.name,
                batch[i].server_id,
                server_id,
            ),
        ToolCatalogError::DuplicateWithinBatch { id, tool_name, entry_count } => (forall|j: int|
            0 <= j < batch.len() ==> #[trigger] batch[j].server_id == server_id) && exists|i: int|
            0 <= i < batch.len() && dup_before(batch, i) && (forall|j: int|
                0 <= j < i ==> !conflicts(current, server_id, batch, j)) && id == batch[i].id
                && tool_name@ == batch[i].tool.name && entry_count == 2,
        ToolCatalogError::DuplicateEntry { id, tool_name, server_count } => (forall|j: int|
            0 <= j < batch.len() ==> #[trigger] batch[j].server_id == server_id) && exists|i: int|
            0 <= i < batch.len() && !dup_before(batch, i) && other_count(current, server_id, batch[i].tool.name)
                > 0 && (forall|j: int| 0 <= j < i ==> !conflicts(current, server_id, batch, j)) && id
                == batch[i].id && tool_name@ == batch[i].tool.name && server_count == other_count(
                current,
                server_id,
                batch[i].tool.name,
            ) + 1,
        _ => false,
    }
}

/// Abstract content of a tenant's catalog.
pub struct CatalogView {
    /// Catalog entries.
    pub entries: Seq<EntryView>,
    /// Audit trail, oldest first.
    pub audits: Seq<AuditView>,
}

/// One tenant's tool catalog: entries and audit trail.
#[derive(Debug)]
pub struct ToolCatalogState {
    entries: Vec<CatalogEntry>,
    audit_records: Vec<ToolCallAuditRecord>,
}

impl View for ToolCatalogState {
    type V = CatalogView;

    closed spec fn view(&self) -> CatalogView {
        CatalogView {
            entries: entry_views(self.entries@),
            audits: self.audit_records@.map_values(|a: ToolCallAuditRecord| a@),
        }
    }
}

fn count_other(entries: &Vec<CatalogEntry>, server_id: McpServerId, name: &[char]) -> (r: usize)
    ensures
        r == other_count(entry_views(entries@), server_id, name@),
        r <= entries@.len(),
{
    let n = entries.len();
    let mut c: usize = 0;
    for i in 0..n
        invariant
            n == entries@.len(),
            c == other_count(entry_views(entries@.take(i as int)), server_id, name@),
            c <= i,
    {
        let ghost prev = entry_views(entries@.take(i as int));
        assert(entry_views(entries@.take(i + 1)).drop_last() =~= prev);
        assert(entry_views(entries@.take(i + 1)).last() == entries@[i as int]@);
        let e = &entries[i];
        let en = chars_of(e.tool().name());
        if !e.server_id().same_as(&server_id) && crate::text::chars_eq(en.as_slice(), name) {
            c = c + 1;
        }
    }
    assert(entries@.take(n as int) =~= entries@);
    c
}

pub(crate) fn first_dup_before(batch: &[CatalogEntry], i: usize) -> (r: bool)
    requires
        i < batch@.len(),
    ensures
        r == dup_before(entry_views(batch@), i as int),
{
    let ni = chars_of(batch[i].tool().name());
    for j in 0..i
        invariant
            i < batch@.len(),
            ni@ == batch@[i as int]@.tool.name,
            forall|k: int| 0 <= k < j ==> (#[trigger] batch@[k])@.tool.name != ni@,
    {
        let nj = chars_of(batch[j].tool().name());
        if crate::text::chars_eq(nj.as_slice(), ni.as_slice()) {
            assert(entry_views(batch@)[j as int].tool.name == entry_views(batch@)[i as int].tool.name);
            return true;
        }
    }
    proof {
        let bv = entry_views(batch@);
        assert forall|k: int| 0 <= k < i implies #[trigger] bv[k].tool.name != bv[i as int].tool.name by {
            assert(bv[k] == batch@[k]@);
        }
    }
    false
}

fn batch_has_id(batch: &[CatalogEntry], id: CatalogEntryId) -> (r: bool)
    ensures
        r == has_entry_id(entry_views(batch@), id),
{
    let n = batch.len();
    for j in 0..n
        invariant
            n == batch@.len(),
            forall|k: int| 0 <= k < j ==> (#[trigger] batch@[k])@.id != id,
    {
        if batch[j].id().same_as(&id) {
            assert(entry_views(batch@)[j as int].id == id);
            return true;
        }
    }
    proof {
        let bv = entry_views(batch@);
        assert forall|k: int| 0 <= k < bv.len() implies #[trigger] bv[k].id != id by {
            assert(bv[k] == batch@[k]@);
        }
    }
    false
}

fn without_id(v: Vec<CatalogEntry>, id: CatalogEntryId) -> (r: Vec<CatalogEntry>)
    ensures
        entry_views(r@) == entry_views(v@).filter(|e: EntryView| e.id != id),
{
    let mut out: Vec<CatalogEntry> = Vec::new();
    let n = v.len();
    for k in 0..n
        invariant
            n == v@.len(),
            entry_views(out@) == entry_views(v@.take(k as int)).filter(|e: EntryView| e.id != id),
    {
        proof {
            let pre = entry_views(v@.take(k as int));
            let post = entry_views(v@.take(k + 1));
            assert(post =~= pre.push(v@[k as int]@));
            reveal(Seq::filter);
            assert(post.drop_last() =~= pre);
        }
        let e = &v[k];
        if !e.id().same_as(&id) {
            let c = e.cloned();
            let ghost before = out@;
            out.push(c);
            assert(entry_views(out@) =~= entry_views(before).push(c@));
        }
    }
    assert(v@.take(n as int) =~= v@);
    out
}

impl ToolCatalogState {
    /// Entries are held by identifier, and no two entries share a tool
    /// name.
    #[verifier::type_invariant]
    closed spec fn inv(self) -> bool {
        ids_unique(entry_views(self.entries@)) && names_unique(entry_views(self.entries@))
    }

    /// An empty catalog.
    pub fn new() -> (r: Self)
        ensures
            r@ == (CatalogView { entries: Seq::empty(), audits: Seq::empty() }),
    {
        let r = ToolCatalogState { entries: Vec::new(), audit_records: Vec::new() };
        assert(r@.entries =~= Seq::empty());
        assert(r@.audits =~= Seq::empty());
        r
    }

    /// Replaces the entries of `server_id` with `entries`.
    ///
    /// The batch is refused, and the catalog left unchanged, when an entry
    /// belongs to another server (`MixedServerBatch`, for the first such
    /// entry), or when, at the first conflicting entry, its tool name occurs
    /// earlier in the batch (`DuplicateWithinBatch`) or on another server
    /// (`DuplicateEntry`, counting the servers that would advertise it).
    /// Otherwise the entries of other servers are kept, in order, except
    /// those whose identifier a batch entry has, followed by the batch with
    /// one entry per identifier (a later entry replaces an earlier one).
    #[verifier::loop_isolation(false)]
    #[verifier::rlimit(40)]
    pub fn sync_server_tools(&mut self, server_id: McpServerId, entries: &[CatalogEntry]) -> (r: Result<(), ToolCatalogError>)
        requires
            old(self)@.entries.len() < usize::MAX,
        ensures
            ({
                let old_e = old(self)@.entries;
                let batch = entry_views(entries@);
                &&& final(self)@.audits == old(self)@.audits
                &&& (r is Ok <==> sync_accepted(old_e, server_id, batch))
                &&& r is Ok ==> final(self)@.entries == synced(old_e, server_id, batch)
                &&& r is Err ==> final(self)@ == old(self)@
                &&& ids_unique(final(self)@.entries) && names_unique(final(self)@.entries)
                &&& (r matches Err(e) ==> sync_refusal(old_e, server_id, batch, e))
            }),
    {
        proof {
            use_type_invariant(&*self);
        }
        let n = entries.len();
        let ghost batch = entry_views(entries@);
        for i in 0..n
            invariant
                n == entries@.len(),
                batch == entry_views(entries@),
                forall|j: int| 0 <= j < i ==> #[trigger] batch[j].server_id == server_id,
        {
            let e = &entries[i];
            if !e.server_id().same_as(&server_id) {
                let mut reason = chars_of("entry '");
                push_all(&mut reason, chars_of(e.tool().name()).as_slice());
                push_all(&mut reason, chars_of("' belongs to server ").as_slice());
                push_all(&mut reason, crate::ids::uuid_text_chars(e.server_id().into_inner()).as_slice());
                push_all(&mut reason, chars_of(" but batch targets ").as_slice());
                push_all(&mut reason, crate::ids::uuid_text_chars(server_id.into_inner()).as_slice());
                let ghost ii = i as int;
                assert(batch[ii] == e@);
                assert(reason@ =~= mixed_batch_text(batch[ii].tool.name, batch[ii].server_id, server_id));
                return Err(ToolCatalogError::MixedServerBatch { reason: string_from_chars(reason.as_slice()) });
            }
        }
        let ghost old_e = self@.entries;
        for i in 0..n
            invariant
                n == entries@.len(),
                batch == entry_views(entries@),
                old_e == entry_views(self.entries@),
                self@ == old(self)@,
                forall|j: int| 0 <= j < batch.len() ==> #[trigger] batch[j].server_id == server_id,
                forall|j: int| 0 <= j < i ==> !conflicts(old_e, server_id, batch, j),
        {
            let e = &entries[i];
            let ghost ii = i as int;
            assert(batch[ii] == e@);
            if first_dup_before(entries, i) {
                let name = e.tool().name().to_owned();
                assert(conflicts(old_e, server_id, batch, ii));
                assert(!(forall|j: int| 0 <= j < batch.len() ==> !conflicts(old_e, server_id, batch, j)));
                return Err(ToolCatalogError::DuplicateWithinBatch { id: e.id(), tool_name: name, entry_count: 2 });
            }
            let en = chars_of(e.tool().name());
            let c = count_other(&self.entries, server_id, en.as_slice());
            if c > 0 {
                let name = e.tool().name().to_owned();
                assert(conflicts(old_e, server_id, batch, ii));
                assert(!(forall|j: int| 0 <= j < batch.len() ==> !conflicts(old_e, server_id, batch, j)));
                return Err(ToolCatalogError::DuplicateEntry { id: e.id(), tool_name: name, server_count: c + 1 });
            }
        }
        let mut kept_entries: Vec<CatalogEntry> = Vec::new();
        let m = self.entries.len();
        for k in 0..m
            invariant
                m == self.entries@.len(),
                n == entries@.len(),
                batch == entry_views(entries@),
                old_e == entry_views(self.entries@),
                entry_views(kept_entries@) == kept(entry_views(self.entries@.take(k as int)), server_id, batch),
        {
            proof {
                let pre = entry_views(self.entries@.take(k as int));
                let post = entry_views(self.entries@.take(k + 1));
                assert(post =~= pre.push(self.entries@[k as int]@));
                reveal(Seq::filter);
                assert(post.drop_last() =~= pre);
            }
            let e = &self.entries[k];
            if !e.server_id().same_as(&server_id) && !batch_has_id(entries, e.id()) {
                let c = e.cloned();
                kept_entries.push(c);
                assert(entry_views(kept_entries@) =~= kept(entry_views(self.entries@.take(k as int)), server_id, batch).push(c@));
            } else {
                assert(entry_views(kept_entries@) =~= kept(entry_views(self.entries@.take(k as int)), server_id, batch));
            }
        }
        assert(self.entries@.take(m as int) =~= self.entries@);
        let mut deduped: Vec<CatalogEntry> = Vec::new();
        for i in 0..n
            invariant
                n == entries@.len(),
                batch == entry_views(entries@),
                entry_views(deduped@) == by_last_id(batch.take(i as int)),
        {
            let c = entries[i].cloned();
            let id = c.id();
            let rest = without_id(deduped, id);
            deduped = rest;
            let ghost before = deduped@;
            deduped.push(c);
            assert(batch[i as int] == entries@[i as int]@);
            assert(batch.take(i + 1).drop_last() =~= batch.take(i as int));
            assert(batch.take(i + 1).last() == batch[i as int]);
            assert(entry_views(deduped@) =~= entry_views(before).push(c@));
        }
        assert(batch.take(n as int) =~= batch);
        let ghost kv = entry_views(kept_entries@);
        let ghost dv = entry_views(deduped@);
        kept_entries.append(&mut deduped);
        assert(entry_views(kept_entries@) =~= kv + dv);
        proof {
            use_type_invariant(&*self);
            lemma_sync_keeps_names_unique(old_e, server_id, batch);
        }
        self.entries = kept_entries;
        Ok(())
    }

    fn mark_server_tools(&mut self, server_id: McpServerId, available: bool, now: i64)
        ensures
            final(self)@.audits == old(self)@.audits,
            final(self)@.entries.len() == old(self)@.entries.len(),
            forall|i: int|
                0 <= i < old(self)@.entries.len() ==> #[trigger] final(self)@.entries[i] == marked(
                    old(self)@.entries[i],
                    server_id,
                    available,
                    now,
                ),
    {
        proof {
            use_type_invariant(&*self);
        }
        let mut entries: Vec<CatalogEntry> = Vec::new();
        std::mem::swap(&mut entries, &mut self.entries);
        let n = entries.len();
        let ghost old_e = entry_views(entries@);
        for i in 0..n
            invariant
                n == entries@.len(),
                old_e.len() == n,
                forall|k: int| 0 <= k < i ==> (#[trigger] entries@[k])@ == marked(old_e[k], server_id, available, now),
                forall|k: int| i <= k < n ==> (#[trigger] entries@[k])@ == old_e[k],
        {
            let ghost before = entries@;
            assert(before[i as int]@ == old_e[i as int]);
            if entries[i].server_id().same_as(&server_id) {
                let mut e = entries[i].cloned();
                if available {
                    e.mark_available(now);
                } else {
                    e.mark_unavailable(now);
                }
                entries.set(i, e);
                assert(entries@ == before.update(i as int, e));
            }
            assert(entries@[i as int]@ == marked(old_e[i as int], server_id, available, now));
        }
        let ghost nv = entry_views(entries@);
        assert forall|k: int| 0 <= k < n implies #[trigger] nv[k] == marked(old_e[k], server_id, available, now) by {
            assert(nv[k] == entries@[k]@);
        }
        assert forall|a: int, b: int| 0 <= a < b < n implies (#[trigger] nv[a]).id != (#[trigger] nv[b]).id
            && nv[a].tool.name != nv[b].tool.name by {
            assert(nv[a] == marked(old_e[a], server_id, available, now));
            assert(nv[b] == marked(old_e[b], server_id, available, now));
        }
        self.entries = entries;
    }

    /// Marks every tool of `server_id` unavailable as of `now`.
    pub fn mark_server_tools_unavailable(&mut self, server_id: McpServerId, now: i64)
        ensures
            final(self)@.audits == old(self)@.audits,
            final(self)@.entries.len() == old(self)@.entries.len(),
            forall|i: int|
                0 <= i < old(self)@.entries.len() ==> #[trigger] final(self)@.entries[i] == marked(
                    old(self)@.entries[i],
                    server_id,
                    false,
                    now,
                ),
            ids_unique(final(self)@.entries),
            names_unique(final(self)@.entries),
    {
        self.mark_server_tools(server_id, false, now);
        proof {
            use_type_invariant(&*self);
        }
    }

    /// Marks every tool of `server_id` available as of `now`.
    pub fn mark_server_tools_available(&mut self, server_id: McpServerId, now: i64)
        ensures
            final(self)@.audits == old(self)@.audits,
            final(self)@.entries.len() == old(self)@.entries.len(),
            forall|i: int|
                0 <= i < old(self)@.entries.len() ==> #[trigger] final(self)@.entries[i] == marked(
                    old(self)@.entries[i],
                    server_id,
                    true,
                    now,
                ),
            ids_unique(final(self)@.entries),
            names_unique(final(self)@.entries),
    {
        self.mark_server_tools(server_id, true, now);
        proof {
            use_type_invariant(&*self);
        }
    }

    /// Entries whose tool is named `tool_name`, in catalog order.
    pub fn find_by_tool_name(&self, tool_name: &str) -> (r: Vec<CatalogEntry>)
        ensures
            entry_views(r@) == named(self@.entries, tool_name@),
    {
        let want = chars_of(tool_name);
        let mut out: Vec<CatalogEntry> = Vec::new();
        let m = self.entries.len();
        for k in 0..m
            invariant
                m == self.entries@.len(),
                want@ == tool_name@,
                entry_views(out@) == named(entry_views(self.entries@.take(k as int)), tool_name@),
        {
            proof {
                let pre = entry_views(self.entries@.take(k as int));
                let post = entry_views(self.entries@.take(k + 1));
                assert(post =~= pre.push(self.entries@[k as int]@));
                reveal(Seq::filter);
                assert(post.drop_last() =~= pre);
            }
            let e = &self.entries[k];
            let en = chars_of(e.tool().name());
            if crate::text::chars_eq(en.as_slice(), want.as_slice()) {
                let c = e.cloned();
                out.push(c);
                assert(entry_views(out@) =~= named(entry_views(self.entries@.take(k as int)), tool_name@).push(c@));
            } else {
                assert(entry_views(out@) =~= named(entry_views(self.entries@.take(k as int)), tool_name@));
            }
        }
        assert(self.entries@.take(m as int) =~= self.entries@);
        out
    }

    /// Every entry of the catalog, in order.
    pub fn list_all(&self) -> (r: Vec<CatalogEntry>)
        ensures
            entry_views(r@) == self@.entries,
    {
        let mut out: Vec<CatalogEntry> = Vec::new();
        let m = self.entries.len();
        for k in 0..m
            invariant
                m == self.entries@.len(),
                entry_views(out@) == entry_views(self.entries@.take(k as int)),
        {
            let c = self.entries[k].cloned();
            let ghost before = out@;
            out.push(c);
            assert(out@ =~= before.push(c));
            assert(self.entries@.take(k + 1) =~= self.entries@.take(k as int).push(self.entries@[k as int]));
            assert(entry_views(out@) =~= entry_views(before).push(c@));
            assert(entry_views(self.entries@.take(k + 1)) =~= entry_views(self.entries@.take(k as int)).push(self.entries@[k as int]@));
        }
        assert(self.entries@.take(m as int) =~= self.entries@);
        out
    }

    /// Appends a tool call audit record to the trail.
    pub fn record_audit(&mut self, record: &ToolCallAuditRecord)
        ensures
            final(self)@.entries == old(self)@.entries,
            final(self)@.audits == old(self)@.audits.push(record@),
            ids_unique(final(self)@.entries),
            names_unique(final(self)@.entries),
    {
        proof {
            use_type_invariant(&*self);
        }
        let c = record.cloned();
        let mut audits: Vec<ToolCallAuditRecord> = Vec::new();
        std::mem::swap(&mut audits, &mut self.audit_records);
        audits.push(c);
        self.audit_records = audits;
        assert(self@.audits =~= old(self)@.audits.push(record@));
        proof {
            use_type_invariant(&*self);
        }
    }

    /// The audit trail, oldest first.
    pub fn audit_records(&self) -> (r: Vec<ToolCallAuditRecord>)
        ensures
            r@.map_values(|a: ToolCallAuditRecord| a@) == self@.audits,
    {
        let mut out: Vec<ToolCallAuditRecord> = Vec::new();
        let m = self.audit_records.len();
        for k in 0..m
            invariant
                m == self.audit_records@.len(),
                out@.map_values(|a: ToolCallAuditRecord| a@) == self.audit_records@.take(k as int).map_values(|a: ToolCallAuditRecord| a@),
        {
            let c = self.audit_records[k].cloned();
            let ghost before = out@;
            out.push(c);
            assert(out@ =~= before.push(c));
            assert(self.audit_records@.take(k + 1) =~= self.audit_records@.take(k as int).push(self.audit_records@[k as int]));
            assert(out@.map_values(|a: ToolCallAuditRecord| a@) =~= before.map_values(|a: ToolCallAuditRecord| a@).push(c@));
            assert(self.audit_records@.take(k + 1).map_values(|a: ToolCallAuditRecord| a@) =~= self.audit_records@.take(k as int).map_values(|a: ToolCallAuditRecord| a@).push(self.audit_records@[k as int]@));
        }
        assert(self.audit_records@.take(m as int) =~= self.audit_records@);
        out
    }
}

} // verus!
