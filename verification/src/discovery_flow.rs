//! The discovery of a server's tools as a state machine: the server is
//! looked up and must run, its tools are listed by the host, and the
//! catalog entries made of them replace the server's entries in the
//! catalog. Each step takes the answer of the last port call and says
//! which call comes next, or how the discovery ends.

use crate::catalog::{entry_views, CatalogEntry, EntryView, ToolCatalogError};
use crate::discovery::{
    entries_for_discovered_tools, located_as, map_sync_error, require_running_server, sync_error_spec,
    ToolDiscoveryRoutingServiceError,
};
use crate::host::McpServerHostError;
use crate::ids::McpServerId;
use crate::registry::McpServerRegistryError;
use crate::server::{McpServerRegistration, RegistrationView};
use crate::tool::McpToolDefinition;
use vstd::prelude::*;

verus! {

/// Where a discovery stands.
#[derive(Debug)]
pub enum DiscoveryFlow {
    /// Waiting for the registry's lookup of the server.
    Locating {
        /// The server whose tools are discovered.
        server_id: McpServerId,
    },
    /// Waiting for the host's list of the server's tools.
    Listing {
        /// The running server.
        server: McpServerRegistration,
    },
    /// Waiting for the catalog to take the entries.
    Syncing {
        /// The entries being synced.
        entries: Vec<CatalogEntry>,
    },
    /// The discovery has ended.
    Done,
}

/// The answer of the last port call.
#[derive(Debug)]
pub enum DiscoveryEvent {
    /// The registry lookup answered.
    ServerFound(Result<Option<McpServerRegistration>, McpServerRegistryError>),
    /// The host listed the server's tools.
    ToolsListed(Result<Vec<McpToolDefinition>, McpServerHostError>),
    /// The catalog took the entries, or refused them.
    Synced(Result<(), ToolCatalogError>),
}

/// The port call to make next, or the end of the discovery.
#[derive(Debug)]
pub enum DiscoveryStep {
    /// Look up the server in the registry.
    FindServer(McpServerId),
    /// Ask the host for the server's tools.
    ListTools(McpServerRegistration),
    /// Replace the server's catalog entries with these.
    SyncTools(McpServerId, Vec<CatalogEntry>),
    /// The discovery ends with this answer: the synced entries, or why not.
    Finish(Result<Vec<CatalogEntry>, ToolDiscoveryRoutingServiceError>),
}

/// Whether `flow` waits for an event of the kind of `event`.
pub open spec fn discovery_expects(flow: DiscoveryFlow, event: DiscoveryEvent) -> bool {
    match flow {
        DiscoveryFlow::Locating { .. } => event is ServerFound,
        DiscoveryFlow::Listing { .. } => event is ToolsListed,
        DiscoveryFlow::Syncing { .. } => event is Synced,
        DiscoveryFlow::Done => false,
    }
}

/// Whether `es` are the entries a discovery of `tools` on `server` at
/// `now` makes: one available entry per tool, in order.
pub open spec fn discovered_entries(es: Seq<EntryView>, server: RegistrationView, tools: Seq<McpToolDefinition>, now: i64) -> bool {
    &&& es.len() == tools.len()
    &&& forall|i: int|
        0 <= i < tools.len() ==> {
            let e = #[trigger] es[i];
            &&& e.server_id == server.id
            &&& e.server_name == server.name
            &&& e.tool == tools[i]@
            &&& e.available
            &&& e.discovered_at == now
            &&& e.updated_at == now
        }
}

/// A copy of each entry, in order.
pub fn copy_entries(entries: &Vec<CatalogEntry>) -> (r: Vec<CatalogEntry>)
    ensures
        entry_views(r@) == entry_views(entries@),
{
    let mut out: Vec<CatalogEntry> = Vec::new();
    let n = entries.len();
    for i in 0..n
        invariant
            n == entries@.len(),
            out@.len() == i,
            forall|k: int| 0 <= k < i ==> (#[trigger] out@[k])@ == entries@[k]@,
    {
        out.push(entries[i].cloned());
    }
    assert(entry_views(out@) =~= entry_views(entries@));
    out
}

impl DiscoveryFlow {
    /// The first step of discovering the tools of `server_id`: look it up.
    pub fn begin(server_id: McpServerId) -> (r: (DiscoveryFlow, DiscoveryStep))
        ensures
            r.0 == (DiscoveryFlow::Locating { server_id }),
            r.1 == DiscoveryStep::FindServer(server_id),
    {
        (DiscoveryFlow::Locating { server_id }, DiscoveryStep::FindServer(server_id))
    }

    /// Whether the flow waits for an event of the kind of `event`.
    pub fn expects(&self, event: &DiscoveryEvent) -> (r: bool)
        ensures
            r == discovery_expects(*self, *event),
    {
        match self {
            DiscoveryFlow::Locating { .. } => matches!(event, DiscoveryEvent::ServerFound(_)),
            DiscoveryFlow::Listing { .. } => matches!(event, DiscoveryEvent::ToolsListed(_)),
            DiscoveryFlow::Syncing { .. } => matches!(event, DiscoveryEvent::Synced(_)),
            DiscoveryFlow::Done => false,
        }
    }

    /// Takes the answer of the last port call, read at `now`, and gives the
    /// next state and port call, or the end of the discovery. A missing or
    /// stopped server, a registry or host failure end it; a catalog refusal
    /// ends it as [`sync_error_spec`] states; a successful sync ends it
    /// with the synced entries.
    pub fn step(self, event: DiscoveryEvent, now: i64) -> (r: (DiscoveryFlow, DiscoveryStep))
        requires
            discovery_expects(self, event),
        ensures
            match (self, event) {
                (DiscoveryFlow::Locating { .. }, DiscoveryEvent::ServerFound(Err(e))) => r.0 == DiscoveryFlow::Done
                    && r.1 == DiscoveryStep::Finish(Err(ToolDiscoveryRoutingServiceError::Registry(e))),
                (DiscoveryFlow::Locating { server_id }, DiscoveryEvent::ServerFound(Ok(found))) => exists|
                    l: Result<McpServerRegistration, ToolDiscoveryRoutingServiceError>,
                |
                    #![trigger located_as(server_id, found, l)]
                    located_as(server_id, found, l) && match l {
                        Err(err) => r.0 == DiscoveryFlow::Done && r.1 == DiscoveryStep::Finish(Err(err)),
                        Ok(s) => (r.0 matches DiscoveryFlow::Listing { server } && server@ == s@) && (r.1 matches DiscoveryStep::ListTools(
                            x,
                        ) && x@ == s@),
                    },
                (DiscoveryFlow::Listing { .. }, DiscoveryEvent::ToolsListed(Err(e))) => r.0 == DiscoveryFlow::Done
                    && r.1 == DiscoveryStep::Finish(Err(ToolDiscoveryRoutingServiceError::Host(e))),
                (DiscoveryFlow::Listing { server }, DiscoveryEvent::ToolsListed(Ok(tools))) => (r.0 matches DiscoveryFlow::Syncing {
                    entries,
                } && discovered_entries(entry_views(entries@), server@, tools@, now)) && (r.1 matches DiscoveryStep::SyncTools(
                    id,
                    es,
                ) && id == server@.id && entry_views(es@) == entry_views(r.0->entries@)),
                (DiscoveryFlow::Syncing { entries }, DiscoveryEvent::Synced(Ok(()))) => r.0 == DiscoveryFlow::Done
                    && r.1 == DiscoveryStep::Finish(Ok(entries)),
                (DiscoveryFlow::Syncing { .. }, DiscoveryEvent::Synced(Err(e))) => r.0 == DiscoveryFlow::Done && r.1
                    == DiscoveryStep::Finish(Err(sync_error_spec(e))),
                _ => false,
            },
    {
        match (self, event) {
            (DiscoveryFlow::Locating { server_id: _ }, DiscoveryEvent::ServerFound(Err(e))) => {
                (DiscoveryFlow::Done, DiscoveryStep::Finish(Err(ToolDiscoveryRoutingServiceError::Registry(e))))
            },
            (DiscoveryFlow::Locating { server_id }, DiscoveryEvent::ServerFound(Ok(found))) => {
                let ghost gf = found;
                let l = require_running_server(server_id, found);
                let ghost gl = l;
                proof {
                    assert(located_as(server_id, gf, gl));
                }
                match l {
                    Err(err) => (DiscoveryFlow::Done, DiscoveryStep::Finish(Err(err))),
                    Ok(s) => {
                        let x = s.cloned();
                        (DiscoveryFlow::Listing { server: s }, DiscoveryStep::ListTools(x))
                    },
                }
            },
            (DiscoveryFlow::Listing { server: _ }, DiscoveryEvent::ToolsListed(Err(e))) => {
                (DiscoveryFlow::Done, DiscoveryStep::Finish(Err(ToolDiscoveryRoutingServiceError::Host(e))))
            },
            (DiscoveryFlow::Listing { server }, DiscoveryEvent::ToolsListed(Ok(tools))) => {
                let ghost gt = tools@;
                let entries = entries_for_discovered_tools(&server, tools, now);
                proof {
                    let ev = entry_views(entries@);
                    assert forall|i: int| 0 <= i < gt.len() implies #[trigger] ev[i] == entries@[i]@ by {}
                }
                let copy = copy_entries(&entries);
                (DiscoveryFlow::Syncing { entries }, DiscoveryStep::SyncTools(server.id(), copy))
            },
            (DiscoveryFlow::Syncing { entries }, DiscoveryEvent::Synced(Ok(()))) => {
                (DiscoveryFlow::Done, DiscoveryStep::Finish(Ok(entries)))
            },
            (DiscoveryFlow::Syncing { entries: _ }, DiscoveryEvent::Synced(Err(e))) => {
                (DiscoveryFlow::Done, DiscoveryStep::Finish(Err(map_sync_error(e))))
            },
            _ => {
                proof {
                    assert(false);
                }
                (DiscoveryFlow::Done, DiscoveryStep::FindServer(McpServerId(0)))
            },
        }
    }
}

} // verus!
