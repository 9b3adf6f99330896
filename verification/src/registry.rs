//! The MCP server registry: registrations kept with unique identifiers and
//! unique names, as an in-memory repository holds them.

use crate::ids::{uuid_text_spec, McpServerId, McpServerName};
use crate::server::{McpServerRegistration, RegistrationView};
use crate::text::{push_str, push_uuid, string_from_chars};
use vstd::prelude::*;

verus! {

/// Errors returned by registry repositories.
#[derive(Debug, PartialEq, Eq)]
pub enum McpServerRegistryError {
    /// A server with the same identifier already exists.
    DuplicateServer(McpServerId),
    /// A server with the same name already exists.
    DuplicateServerName(McpServerName),
    /// No server exists with the identifier.
    NotFound(McpServerId),
    /// Persisted data could not be reconstructed; the text of the cause.
    InvalidPersistedData(String),
    /// A persistence-layer operation failed; the text of the cause.
    Persistence(String),
}

/// The human-readable text of a registry error.
pub open spec fn registry_error_text(e: McpServerRegistryError) -> Seq<char> {
    match e {
        McpServerRegistryError::DuplicateServer(id) => "duplicate MCP server identifier: "@
            + uuid_text_spec(id.0),
        McpServerRegistryError::DuplicateServerName(n) => "duplicate MCP server name: "@ + n@,
        McpServerRegistryError::NotFound(id) => "MCP server not found: "@ + uuid_text_spec(id.0),
        McpServerRegistryError::InvalidPersistedData(m) => "invalid persisted MCP server data: "@
            + m@,
        McpServerRegistryError::Persistence(m) => "persistence error: "@ + m@,
    }
}

impl McpServerRegistryError {
    /// Wraps the text of an invalid-persisted-data cause.
    pub fn invalid_persisted_data(cause: &str) -> (r: Self)
        ensures
            r matches McpServerRegistryError::InvalidPersistedData(m) && m@ == cause@,
    {
        McpServerRegistryError::InvalidPersistedData(cause.to_owned())
    }

    /// Wraps the text of a persistence cause.
    pub fn persistence(cause: &str) -> (r: Self)
        ensures
            r matches McpServerRegistryError::Persistence(m) && m@ == cause@,
    {
        McpServerRegistryError::Persistence(cause.to_owned())
    }

    /// The human-readable text of this error.
    pub fn message(&self) -> (r: String)
        ensures
            r@ == registry_error_text(*self),
    {
        let mut v: Vec<char> = Vec::new();
        match self {
            McpServerRegistryError::DuplicateServer(id) => {
                push_str(&mut v, "duplicate MCP server identifier: ");
                push_uuid(&mut v, id.0);
            },
            McpServerRegistryError::DuplicateServerName(n) => {
                push_str(&mut v, "duplicate MCP server name: ");
                push_str(&mut v, n.as_str());
            },
            McpServerRegistryError::NotFound(id) => {
                push_str(&mut v, "MCP server not found: ");
                push_uuid(&mut v, id.0);
            },
            McpServerRegistryError::InvalidPersistedData(m) => {
                push_str(&mut v, "invalid persisted MCP server data: ");
                push_str(&mut v, m.as_str());
            },
            McpServerRegistryError::Persistence(m) => {
                push_str(&mut v, "persistence error: ");
                push_str(&mut v, m.as_str());
            },
        }
        assert(v@ =~= registry_error_text(*self));
        string_from_chars(v.as_slice())
    }
}

/// Views of a sequence of registrations.
pub open spec fn registration_views(s: Seq<McpServerRegistration>) -> Seq<RegistrationView> {
    s.map_values(|r: McpServerRegistration| r@)
}

/// Whether some registration has identifier `id`.
pub open spec fn has_id(s: Seq<RegistrationView>, id: McpServerId) -> bool {
    exists|i: int| 0 <= i < s.len() && (#[trigger] s[i]).id == id
}

/// Whether some registration has name `name`.
pub open spec fn has_name(s: Seq<RegistrationView>, name: Seq<char>) -> bool {
    exists|i: int| 0 <= i < s.len() && (#[trigger] s[i]).name == name
}

/// No two registrations share an identifier or a name.
pub open spec fn registry_wf(s: Seq<RegistrationView>) -> bool {
    forall|i: int, j: int|
        0 <= i < j < s.len() ==> (#[trigger] s[i]).id != (#[trigger] s[j]).id && s[i].name != s[j].name
}

/// The registration with identifier `id`, if any.
pub open spec fn lookup_id(s: Seq<RegistrationView>, id: McpServerId) -> Option<RegistrationView> {
    if has_id(s, id) {
        Some(s[choose|i: int| 0 <= i < s.len() && (#[trigger] s[i]).id == id])
    } else {
        None
    }
}

/// The registration named `name`, if any.
pub open spec fn lookup_name(s: Seq<RegistrationView>, name: Seq<char>) -> Option<RegistrationView> {
    if has_name(s, name) {
        Some(s[choose|i: int| 0 <= i < s.len() && (#[trigger] s[i]).name == name])
    } else {
        None
    }
}

/// In a well-formed registry, the registration at `i` is the one found by
/// its identifier and by its name.
pub proof fn lemma_lookup_at(s: Seq<RegistrationView>, i: int)
    requires
        registry_wf(s),
        0 <= i < s.len(),
    ensures
        lookup_id(s, s[i].id) == Some(s[i]),
        lookup_name(s, s[i].name) == Some(s[i]),
{
    let k = choose|k: int| 0 <= k < s.len() && (#[trigger] s[k]).id == s[i].id;
    if k != i {
        if k < i {
            assert(s[k].id != s[i].id);
        } else {
            assert(s[i].id != s[k].id);
        }
    }
    let m = choose|m: int| 0 <= m < s.len() && (#[trigger] s[m]).name == s[i].name;
    if m != i {
        if m < i {
            assert(s[m].name != s[i].name);
        } else {
            assert(s[i].name != s[m].name);
        }
    }
}

/// Registrations, identifiers and names unique.
#[derive(Debug)]
pub struct McpServerRegistryState {
    servers: Vec<McpServerRegistration>,
}

impl View for McpServerRegistryState {
    type V = Seq<RegistrationView>;

    closed spec fn view(&self) -> Seq<RegistrationView> {
        registration_views(self.servers@)
    }
}

fn index_of_id(servers: &Vec<McpServerRegistration>, id: McpServerId) -> (r: Option<usize>)
    ensures
        match r {
            Some(i) => i < servers@.len() && servers@[i as int]@.id == id,
            None => !has_id(registration_views(servers@), id),
        },
{
    let n = servers.len();
    for i in 0..n
        invariant
            n == servers@.len(),
            forall|k: int| 0 <= k < i ==> (#[trigger] servers@[k])@.id != id,
    {
        if servers[i].id().same_as(&id) {
            return Some(i);
        }
    }
    proof {
        let v = registration_views(servers@);
        assert forall|k: int| 0 <= k < v.len() implies (#[trigger] v[k]).id != id by {
            assert(v[k] == servers@[k]@);
        }
    }
    None
}

fn index_of_name(servers: &Vec<McpServerRegistration>, name: &McpServerName) -> (r: Option<usize>)
    ensures
        match r {
            Some(i) => i < servers@.len() && servers@[i as int]@.name == name@,
            None => !has_name(registration_views(servers@), name@),
        },
{
    let n = servers.len();
    for i in 0..n
        invariant
            n == servers@.len(),
            forall|k: int| 0 <= k < i ==> (#[trigger] servers@[k])@.name != name@,
    {
        if servers[i].name().same_as(name) {
            return Some(i);
        }
    }
    proof {
        let v = registration_views(servers@);
        assert forall|k: int| 0 <= k < v.len() implies (#[trigger] v[k]).name != name@ by {
            assert(v[k] == servers@[k]@);
        }
    }
    None
}

impl McpServerRegistryState {
    #[verifier::type_invariant]
    closed spec fn inv(self) -> bool {
        registry_wf(registration_views(self.servers@))
    }

    /// An empty registry.
    pub fn new() -> (r: Self)
        ensures
            r@.len() == 0,
    {
        let r = McpServerRegistryState { servers: Vec::new() };
        assert(registration_views(r.servers@) =~= Seq::<RegistrationView>::empty());
        r
    }

    /// Adds a registration. It is refused when a registration with the
    /// same identifier (`DuplicateServer`) or, failing that, the same name
    /// (`DuplicateServerName`) exists; the registry is then unchanged.
    pub fn register(&mut self, server: &McpServerRegistration) -> (r: Result<(), McpServerRegistryError>)
        ensures
            registry_wf(final(self)@),
            match r {
                Ok(()) => !has_id(old(self)@, server@.id) && !has_name(old(self)@, server@.name)
                    && final(self)@ == old(self)@.push(server@),
                Err(McpServerRegistryError::DuplicateServer(id)) => has_id(old(self)@, server@.id)
                    && id == server@.id && final(self)@ == old(self)@,
                Err(McpServerRegistryError::DuplicateServerName(n)) => !has_id(old(self)@, server@.id)
                    && has_name(old(self)@, server@.name) && n@ == server@.name && final(self)@ == old(self)@,
                Err(_) => false,
            },
    {
        proof {
            use_type_invariant(&*self);
        }
        if let Some(i) = index_of_id(&self.servers, server.id()) {
            assert(self@[i as int] == self.servers@[i as int]@);
            return Err(McpServerRegistryError::DuplicateServer(server.id()));
        }
        if let Some(i) = index_of_name(&self.servers, server.name()) {
            assert(self@[i as int] == self.servers@[i as int]@);
            return Err(McpServerRegistryError::DuplicateServerName(server.name().cloned()));
        }
        let c = server.cloned();
        let ghost before = self.servers@;
        let mut servers: Vec<McpServerRegistration> = Vec::new();
        std::mem::swap(&mut servers, &mut self.servers);
        servers.push(c);
        proof {
            let ov = registration_views(before);
            let nv = registration_views(servers@);
            assert(nv =~= ov.push(server@));
            assert forall|i: int, j: int| 0 <= i < j < nv.len() implies (#[trigger] nv[i]).id
                != (#[trigger] nv[j]).id && nv[i].name != nv[j].name by {
                if j == ov.len() {
                    assert(nv[i] == ov[i]);
                } else {
                    assert(nv[i] == ov[i] && nv[j] == ov[j]);
                }
            }
        }
        self.servers = servers;
        Ok(())
    }

    /// Replaces the stored registration with the same identifier. It is
    /// refused when none exists (`NotFound`), or when another registration
    /// already has the new name (`DuplicateServerName`); the registry is
    /// then unchanged.
    pub fn update(&mut self, server: &McpServerRegistration) -> (r: Result<(), McpServerRegistryError>)
        ensures
            registry_wf(final(self)@),
            match r {
                Ok(()) => exists|i: int|
                    0 <= i < old(self)@.len() && old(self)@[i].id == server@.id && final(self)@
                        == old(self)@.update(i, server@) && !(exists|j: int|
                        0 <= j < old(self)@.len() && #[trigger] old(self)@[j].name == server@.name
                            && old(self)@[j].id != server@.id),
                Err(McpServerRegistryError::NotFound(id)) => !has_id(old(self)@, server@.id) && id
                    == server@.id && final(self)@ == old(self)@,
                Err(McpServerRegistryError::DuplicateServerName(n)) => has_id(old(self)@, server@.id)
                    && (exists|j: int|
                    0 <= j < old(self)@.len() && #[trigger] old(self)@[j].name == server@.name
                        && old(self)@[j].id != server@.id) && n@ == server@.name && final(self)@
                    == old(self)@,
                Err(_) => false,
            },
    {
        proof {
            use_type_invariant(&*self);
        }
        let ghost ov = registration_views(self.servers@);
        let i = match index_of_id(&self.servers, server.id()) {
            None => {
                return Err(McpServerRegistryError::NotFound(server.id()));
            },
            Some(i) => i,
        };
        assert(ov[i as int] == self.servers@[i as int]@);
        if let Some(j) = index_of_name(&self.servers, server.name()) {
            if !self.servers[j].id().same_as(&server.id()) {
                assert(ov[j as int] == self.servers@[j as int]@);
                return Err(McpServerRegistryError::DuplicateServerName(server.name().cloned()));
            }
            assert(ov[j as int] == self.servers@[j as int]@);
        }
        proof {
            assert forall|j: int| 0 <= j < ov.len() && #[trigger] ov[j].name == server@.name implies ov[j].id
                == server@.id by {
                assert(ov[j] == self.servers@[j]@);
                if ov[j].id != server@.id {
                    assert(has_name(ov, server@.name));
                }
            }
        }
        let c = server.cloned();
        let mut servers: Vec<McpServerRegistration> = Vec::new();
        std::mem::swap(&mut servers, &mut self.servers);
        let ghost before = servers@;
        servers.set(i, c);
        proof {
            let nv = registration_views(servers@);
            assert(nv =~= ov.update(i as int, server@));
            assert forall|a: int, b: int| 0 <= a < b < nv.len() implies (#[trigger] nv[a]).id
                != (#[trigger] nv[b]).id && nv[a].name != nv[b].name by {
                if a == i {
                    assert(nv[b] == ov[b]);
                    assert(ov[i as int].id != ov[b].id);
                } else if b == i {
                    assert(nv[a] == ov[a]);
                    assert(ov[a].id != ov[i as int].id);
                } else {
                    assert(nv[a] == ov[a] && nv[b] == ov[b]);
                }
            }
        }
        self.servers = servers;
        assert(self@ == ov.update(i as int, server@));
        assert(ov[i as int].id == server@.id);
        assert(!(exists|j: int| 0 <= j < ov.len() && #[trigger] ov[j].name == server@.name && ov[j].id != server@.id));
        assert(old(self)@ == ov);
        Ok(())
    }

    /// The registration with identifier `server_id`, if any.
    pub fn find_by_id(&self, server_id: McpServerId) -> (r: Option<McpServerRegistration>)
        ensures
            match r {
                Some(s) => lookup_id(self@, server_id) == Some(s@),
                None => lookup_id(self@, server_id) is None,
            },
    {
        proof {
            use_type_invariant(self);
        }
        match index_of_id(&self.servers, server_id) {
            Some(i) => {
                proof {
                    assert(self@[i as int] == self.servers@[i as int]@);
                    lemma_lookup_at(self@, i as int);
                }
                Some(self.servers[i].cloned())
            },
            None => None,
        }
    }

    /// The registration named `server_name`, if any.
    pub fn find_by_name(&self, server_name: &McpServerName) -> (r: Option<McpServerRegistration>)
        ensures
            match r {
                Some(s) => lookup_name(self@, server_name@) == Some(s@),
                None => lookup_name(self@, server_name@) is None,
            },
    {
        proof {
            use_type_invariant(self);
        }
        match index_of_name(&self.servers, server_name) {
            Some(i) => {
                proof {
                    assert(self@[i as int] == self.servers@[i as int]@);
                    lemma_lookup_at(self@, i as int);
                }
                Some(self.servers[i].cloned())
            },
            None => None,
        }
    }

    /// Every registration, in registration order.
    pub fn list_all(&self) -> (r: Vec<McpServerRegistration>)
        ensures
            registration_views(r@) == self@,
            registry_wf(self@),
    {
        proof {
            use_type_invariant(self);
        }
        let mut out: Vec<McpServerRegistration> = Vec::new();
        let m = self.servers.len();
        for k in 0..m
            invariant
                m == self.servers@.len(),
                registration_views(out@) == registration_views(self.servers@.take(k as int)),
        {
            let c = self.servers[k].cloned();
            let ghost before = out@;
            out.push(c);
            assert(registration_views(out@) =~= registration_views(before).push(c@));
            assert(self.servers@.take(k + 1) =~= self.servers@.take(k as int).push(self.servers@[k as int]));
            assert(registration_views(self.servers@.take(k + 1)) =~= registration_views(self.servers@.take(k as int)).push(self.servers@[k as int]@));
        }
        assert(self.servers@.take(m as int) =~= self.servers@);
        out
    }
}

/// A registration that was just registered is found again by its
/// identifier and by its name.
pub proof fn lemma_register_then_find(before: Seq<RegistrationView>, server: RegistrationView)
    requires
        registry_wf(before.push(server)),
    ensures
        lookup_id(before.push(server), server.id) == Some(server),
        lookup_name(before.push(server), server.name) == Some(server),
{
    lemma_lookup_at(before.push(server), before.len() as int);
}

/// An update that succeeds leaves the registration found by its identifier
/// equal to the new one, and keeps every other identifier's registration.
pub proof fn lemma_update_then_find(before: Seq<RegistrationView>, i: int, server: RegistrationView, other: McpServerId)
    requires
        registry_wf(before),
        registry_wf(before.update(i, server)),
        0 <= i < before.len(),
        before[i].id == server.id,
    ensures
        lookup_id(before.update(i, server), server.id) == Some(server),
        other != server.id ==> lookup_id(before.update(i, server), other) == lookup_id(before, other),
{
    let after = before.update(i, server);
    lemma_lookup_at(after, i);
    if other != server.id {
        if has_id(before, other) {
            let k = choose|k: int| 0 <= k < before.len() && (#[trigger] before[k]).id == other;
            lemma_lookup_at(before, k);
            assert(k != i);
            assert(after[k] == before[k]);
            lemma_lookup_at(after, k);
        } else if has_id(after, other) {
            let k = choose|k: int| 0 <= k < after.len() && (#[trigger] after[k]).id == other;
            assert(k != i);
            assert(before[k] == after[k]);
        }
    }
}

} // verus!
