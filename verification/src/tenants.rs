//! Tool catalogs kept per tenant, as the in-memory catalog repository
//! holds them: every operation reads or changes one tenant's catalog only.

use crate::catalog::{synced, 
    entry_views, marked, named, sync_accepted, sync_refusal, CatalogEntry, CatalogView,
    ToolCatalogError, ToolCatalogState,
};
use crate::ids::{McpServerId, TenantId};
use crate::routing::{AuditView, ToolCallAuditRecord};
use vstd::prelude::*;

verus! {

/// The catalog of a tenant that has none yet.
pub open spec fn empty_catalog() -> CatalogView {
    CatalogView { entries: Seq::empty(), audits: Seq::empty() }
}

/// The catalog of `tenant`: that of its first slot, or an empty one.
pub open spec fn catalog_for(s: Seq<(TenantId, CatalogView)>, tenant: TenantId) -> CatalogView
    decreases s.len(),
{
    if s.len() == 0 {
        empty_catalog()
    } else if s[0].0 == tenant {
        s[0].1
    } else {
        catalog_for(s.drop_first(), tenant)
    }
}

/// Tool catalogs by tenant.
#[derive(Debug)]
pub struct TenantCatalogs {
    tenants: Vec<(TenantId, ToolCatalogState)>,
}

impl View for TenantCatalogs {
    type V = Seq<(TenantId, CatalogView)>;

    closed spec fn view(&self) -> Seq<(TenantId, CatalogView)> {
        self.tenants@.map_values(|p: (TenantId, ToolCatalogState)| (p.0, p.1@))
    }
}

proof fn lemma_catalog_for_index(s: Seq<(TenantId, CatalogView)>, tenant: TenantId, i: int)
    requires
        0 <= i < s.len(),
        s[i].0 == tenant,
        forall|j: int| 0 <= j < i ==> (#[trigger] s[j]).0 != tenant,
    ensures
        catalog_for(s, tenant) == s[i].1,
    decreases i,
{
    if i > 0 {
        assert forall|j: int| 0 <= j < i - 1 implies (#[trigger] s.drop_first()[j]).0 != tenant by {
            assert(s.drop_first()[j] == s[j + 1]);
        }
        lemma_catalog_for_index(s.drop_first(), tenant, i - 1);
    }
}

proof fn lemma_catalog_for_absent(s: Seq<(TenantId, CatalogView)>, tenant: TenantId)
    requires
        forall|j: int| 0 <= j < s.len() ==> (#[trigger] s[j]).0 != tenant,
    ensures
        catalog_for(s, tenant) == empty_catalog(),
    decreases s.len(),
{
    if s.len() > 0 {
        assert forall|j: int| 0 <= j < s.len() - 1 implies (#[trigger] s.drop_first()[j]).0 != tenant by {
            assert(s.drop_first()[j] == s[j + 1]);
        }
        lemma_catalog_for_absent(s.drop_first(), tenant);
    }
}

/// Replacing the catalog in a slot of `tenant` leaves every other tenant's
/// catalog as it was.
proof fn lemma_catalog_for_update_other(s: Seq<(TenantId, CatalogView)>, i: int, c: CatalogView, other: TenantId)
    requires
        0 <= i < s.len(),
        s[i].0 != other,
    ensures
        catalog_for(s.update(i, (s[i].0, c)), other) == catalog_for(s, other),
    decreases s.len(),
{
    let t = s.update(i, (s[i].0, c));
    if s[0].0 != other {
        if i > 0 {
            assert(t.drop_first() =~= s.drop_first().update(i - 1, (s[i].0, c)));
            lemma_catalog_for_update_other(s.drop_first(), i - 1, c, other);
        } else {
            assert(t.drop_first() =~= s.drop_first());
        }
    }
}

/// Adding a slot for `tenant` at the end leaves every other tenant's
/// catalog as it was.
proof fn lemma_catalog_for_push_other(s: Seq<(TenantId, CatalogView)>, p: (TenantId, CatalogView), other: TenantId)
    requires
        p.0 != other,
    ensures
        catalog_for(s.push(p), other) == catalog_for(s, other),
    decreases s.len(),
{
    if s.len() > 0 && s[0].0 != other {
        assert(s.push(p)[0] == s[0]);
        assert(s.push(p).drop_first() =~= s.drop_first().push(p));
        lemma_catalog_for_push_other(s.drop_first(), p, other);
    } else if s.len() == 0 {
        assert(s.push(p)[0] == p);
        assert(s.push(p).drop_first() =~= Seq::<(TenantId, CatalogView)>::empty());
        assert(catalog_for(s.push(p).drop_first(), other) == empty_catalog());
    } else {
        assert(s.push(p)[0] == s[0]);
    }
}

impl TenantCatalogs {
    /// No tenant has a catalog yet.
    pub fn new() -> (r: Self)
        ensures
            r@.len() == 0,
            forall|t: TenantId| #[trigger] catalog_for(r@, t) == empty_catalog(),
    {
        let r = TenantCatalogs { tenants: Vec::new() };
        assert(r@ =~= Seq::<(TenantId, CatalogView)>::empty());
        assert forall|t: TenantId| #[trigger] catalog_for(r@, t) == empty_catalog() by {
            lemma_catalog_for_absent(r@, t);
        }
        r
    }

    fn slot_of(&self, tenant: TenantId) -> (r: Option<usize>)
        ensures
            match r {
                Some(i) => i < self@.len() && self@[i as int].0 == tenant && catalog_for(self@, tenant) == self@[i as int].1
                    && forall|j: int| 0 <= j < i ==> (#[trigger] self@[j]).0 != tenant,
                None => catalog_for(self@, tenant) == empty_catalog() && forall|j: int| 0 <= j < self@.len() ==> (#[trigger] self@[j]).0 != tenant,
            },
    {
        let n = self.tenants.len();
        for i in 0..n
            invariant
                n == self@.len(),
                self@.len() == self.tenants@.len(),
                forall|j: int| 0 <= j < i ==> (#[trigger] self@[j]).0 != tenant,
        {
            assert(self@[i as int] == (self.tenants@[i as int].0, self.tenants@[i as int].1@));
            if self.tenants[i].0.same_as(&tenant) {
                proof {
                    lemma_catalog_for_index(self@, tenant, i as int);
                }
                return Some(i);
            }
        }
        proof {
            lemma_catalog_for_absent(self@, tenant);
        }
        None
    }

    /// The slot of `tenant`, created empty if it has none.
    fn slot_or_new(&mut self, tenant: TenantId) -> (r: usize)
        ensures
            r < final(self)@.len(),
            final(self)@[r as int].0 == tenant,
            final(self)@[r as int].1 == catalog_for(old(self)@, tenant),
            catalog_for(final(self)@, tenant) == final(self)@[r as int].1,
            forall|j: int| 0 <= j < r ==> (#[trigger] final(self)@[j]).0 != tenant,
            forall|t: TenantId| t != tenant ==> #[trigger] catalog_for(final(self)@, t) == catalog_for(old(self)@, t),
    {
        match self.slot_of(tenant) {
            Some(i) => i,
            None => {
                let ghost before = self@;
                let st = ToolCatalogState::new();
                self.tenants.push((tenant, st));
                proof {
                    assert(self@ =~= before.push((tenant, empty_catalog())));
                    assert forall|t: TenantId| t != tenant implies #[trigger] catalog_for(self@, t) == catalog_for(before, t) by {
                        lemma_catalog_for_push_other(before, (tenant, empty_catalog()), t);
                    }
                    assert forall|j: int| 0 <= j < before.len() implies (#[trigger] self@[j]).0 != tenant by {
                        assert(self@[j] == before[j]);
                    }
                    lemma_catalog_for_index(self@, tenant, before.len() as int);
                }
                self.tenants.len() - 1
            },
        }
    }

    fn swap_out(&mut self, i: usize) -> (r: ToolCatalogState)
        requires
            i < old(self)@.len(),
        ensures
            final(self)@ == old(self)@.update(i as int, (old(self)@[i as int].0, empty_catalog())),
            r@ == old(self)@[i as int].1,
    {
        let ghost before = self.tenants@;
        let (t, st) = self.tenants.remove(i);
        self.tenants.insert(i, (t, ToolCatalogState::new()));
        proof {
            assert(self.tenants@ =~= before.update(i as int, (t, self.tenants@[i as int].1)));
            assert(self@ =~= old(self)@.update(i as int, (old(self)@[i as int].0, empty_catalog())));
        }
        st
    }

    fn swap_in(&mut self, i: usize, st: ToolCatalogState)
        requires
            i < old(self)@.len(),
        ensures
            final(self)@ == old(self)@.update(i as int, (old(self)@[i as int].0, st@)),
    {
        let ghost before = self.tenants@;
        let ghost sv = st@;
        let (t, _) = self.tenants.remove(i);
        self.tenants.insert(i, (t, st));
        proof {
            assert(self.tenants@ =~= before.update(i as int, (t, self.tenants@[i as int].1)));
            assert(self@ =~= old(self)@.update(i as int, (old(self)@[i as int].0, sv)));
        }
    }

    /// Replaces the entries of `server_id` in `tenant`'s catalog with
    /// `entries`, by the catalog rules (see
    /// [`ToolCatalogState::sync_server_tools`]); no other tenant's catalog
    /// changes.
    pub fn sync_server_tools(&mut self, tenant: TenantId, server_id: McpServerId, entries: &[CatalogEntry]) -> (r: Result<(), ToolCatalogError>)
        requires
            catalog_for(old(self)@, tenant).entries.len() < usize::MAX,
        ensures
            forall|t: TenantId| t != tenant ==> #[trigger] catalog_for(final(self)@, t) == catalog_for(old(self)@, t),
            ({
                let old_c = catalog_for(old(self)@, tenant);
                let new_c = catalog_for(final(self)@, tenant);
                let batch = entry_views(entries@);
                &&& new_c.audits == old_c.audits
                &&& (r is Ok <==> sync_accepted(old_c.entries, server_id, batch))
                &&& r is Ok ==> new_c.entries == synced(old_c.entries, server_id, batch)
                &&& r is Err ==> new_c == old_c
                &&& (r matches Err(e) ==> sync_refusal(old_c.entries, server_id, batch, e))
            }),
    {
        let i = self.slot_or_new(tenant);
        let ghost mid = self@;
        let mut st = self.swap_out(i);
        let ghost mid2 = self@;
        let r = st.sync_server_tools(server_id, entries);
        self.swap_in(i, st);
        proof {
            self.lemma_after_swap(mid, mid2, i as int, tenant);
        }
        r
    }

    proof fn lemma_after_swap(&self, mid: Seq<(TenantId, CatalogView)>, mid2: Seq<(TenantId, CatalogView)>, i: int, tenant: TenantId)
        requires
            0 <= i < mid.len(),
            mid[i].0 == tenant,
            forall|j: int| 0 <= j < i ==> (#[trigger] mid[j]).0 != tenant,
            mid2 == mid.update(i, (tenant, empty_catalog())),
            self@ == mid2.update(i, (tenant, self@[i].1)),
        ensures
            catalog_for(self@, tenant) == self@[i].1,
            forall|t: TenantId| t != tenant ==> #[trigger] catalog_for(self@, t) == catalog_for(mid, t),
    {
        assert forall|j: int| 0 <= j < i implies (#[trigger] self@[j]).0 != tenant by {
            assert(self@[j] == mid[j]);
        }
        lemma_catalog_for_index(self@, tenant, i);
        assert forall|t: TenantId| t != tenant implies #[trigger] catalog_for(self@, t) == catalog_for(mid, t) by {
            lemma_catalog_for_update_other(mid, i, empty_catalog(), t);
            lemma_catalog_for_update_other(mid2, i, self@[i].1, t);
        }
    }

    fn mark_server_tools(&mut self, tenant: TenantId, server_id: McpServerId, available: bool, now: i64)
        ensures
            forall|t: TenantId| t != tenant ==> #[trigger] catalog_for(final(self)@, t) == catalog_for(old(self)@, t),
            ({
                let old_c = catalog_for(old(self)@, tenant);
                let new_c = catalog_for(final(self)@, tenant);
                &&& new_c.audits == old_c.audits
                &&& new_c.entries.len() == old_c.entries.len()
                &&& forall|k: int| 0 <= k < old_c.entries.len() ==> #[trigger] new_c.entries[k] == marked(old_c.entries[k], server_id, available, now)
            }),
    {
        match self.slot_of(tenant) {
            None => {},
            Some(i) => {
                let ghost mid = self@;
                let mut st = self.swap_out(i);
                let ghost mid2 = self@;
                if available {
                    st.mark_server_tools_available(server_id, now);
                } else {
                    st.mark_server_tools_unavailable(server_id, now);
                }
                self.swap_in(i, st);
                proof {
                    self.lemma_after_swap(mid, mid2, i as int, tenant);
                }
            },
        }
    }

    /// Marks the tools of `server_id` in `tenant`'s catalog unavailable as
    /// of `now`; no other tenant's catalog changes.
    pub fn mark_server_tools_unavailable(&mut self, tenant: TenantId, server_id: McpServerId, now: i64)
        ensures
            forall|t: TenantId| t != tenant ==> #[trigger] catalog_for(final(self)@, t) == catalog_for(old(self)@, t),
            ({
                let old_c = catalog_for(old(self)@, tenant);
                let new_c = catalog_for(final(self)@, tenant);
                &&& new_c.audits == old_c.audits
                &&& new_c.entries.len() == old_c.entries.len()
                &&& forall|k: int| 0 <= k < old_c.entries.len() ==> #[trigger] new_c.entries[k] == marked(old_c.entries[k], server_id, false, now)
            }),
    {
        self.mark_server_tools(tenant, server_id, false, now);
    }

    /// Marks the tools of `server_id` in `tenant`'s catalog available as of
    /// `now`; no other tenant's catalog changes.
    pub fn mark_server_tools_available(&mut self, tenant: TenantId, server_id: McpServerId, now: i64)
        ensures
            forall|t: TenantId| t != tenant ==> #[trigger] catalog_for(final(self)@, t) == catalog_for(old(self)@, t),
            ({
                let old_c = catalog_for(old(self)@, tenant);
                let new_c = catalog_for(final(self)@, tenant);
                &&& new_c.audits == old_c.audits
                &&& new_c.entries.len() == old_c.entries.len()
                &&& forall|k: int| 0 <= k < old_c.entries.len() ==> #[trigger] new_c.entries[k] == marked(old_c.entries[k], server_id, true, now)
            }),
    {
        self.mark_server_tools(tenant, server_id, true, now);
    }

    /// Appends an audit record to `tenant`'s trail; no other tenant's
    /// catalog changes.
    pub fn record_audit(&mut self, tenant: TenantId, record: &ToolCallAuditRecord)
        ensures
            forall|t: TenantId| t != tenant ==> #[trigger] catalog_for(final(self)@, t) == catalog_for(old(self)@, t),
            catalog_for(final(self)@, tenant).entries == catalog_for(old(self)@, tenant).entries,
            catalog_for(final(self)@, tenant).audits == catalog_for(old(self)@, tenant).audits.push(record@),
    {
        let i = self.slot_or_new(tenant);
        let ghost mid = self@;
        let mut st = self.swap_out(i);
        let ghost mid2 = self@;
        st.record_audit(record);
        self.swap_in(i, st);
        proof {
            self.lemma_after_swap(mid, mid2, i as int, tenant);
        }
    }

    /// The entries of `tenant`'s catalog whose tool is named `tool_name`.
    pub fn find_by_tool_name(&self, tenant: TenantId, tool_name: &str) -> (r: Vec<CatalogEntry>)
        ensures
            entry_views(r@) == named(catalog_for(self@, tenant).entries, tool_name@),
    {
        match self.slot_of(tenant) {
            Some(i) => {
                assert(self@[i as int].1 == self.tenants@[i as int].1@);
                self.tenants[i].1.find_by_tool_name(tool_name)
            },
            None => {
                let r: Vec<CatalogEntry> = Vec::new();
                proof {
                    reveal(Seq::filter);
                    assert(entry_views(r@) =~= Seq::<crate::catalog::EntryView>::empty());
                }
                r
            },
        }
    }

    /// Every entry of `tenant`'s catalog.
    pub fn list_all(&self, tenant: TenantId) -> (r: Vec<CatalogEntry>)
        ensures
            entry_views(r@) == catalog_for(self@, tenant).entries,
    {
        match self.slot_of(tenant) {
            Some(i) => {
                assert(self@[i as int].1 == self.tenants@[i as int].1@);
                self.tenants[i].1.list_all()
            },
            None => {
                let r: Vec<CatalogEntry> = Vec::new();
                assert(entry_views(r@) =~= Seq::<crate::catalog::EntryView>::empty());
                r
            },
        }
    }

    /// `tenant`'s audit trail, oldest first.
    pub fn audit_records(&self, tenant: TenantId) -> (r: Vec<ToolCallAuditRecord>)
        ensures
            r@.map_values(|a: ToolCallAuditRecord| a@) == catalog_for(self@, tenant).audits,
    {
        match self.slot_of(tenant) {
            Some(i) => {
                assert(self@[i as int].1 == self.tenants@[i as int].1@);
                self.tenants[i].1.audit_records()
            },
            None => {
                let r: Vec<ToolCallAuditRecord> = Vec::new();
                assert(r@.map_values(|a: ToolCallAuditRecord| a@) =~= Seq::<AuditView>::empty());
                r
            },
        }
    }
}

} // verus!
