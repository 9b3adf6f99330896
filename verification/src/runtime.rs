//! The in-memory runtime host: which servers run, which report unhealthy,
//! and the tool catalogs, tool call results and stderr it is configured to
//! answer with. Settings are kept in the order they were made; the latest
//! setting for a key is the one that counts.

use crate::health::{HealthSnapshotView, McpServerHealthSnapshot, McpServerHealthStatus};
use crate::host::{McpServerHostError, StartHostResult, ToolCallHostResult};
use crate::ids::{McpServerId, McpServerName};
use crate::json::{JsonValue, JsonView};
use crate::server::McpServerRegistration;
use crate::text::{chars_of, chars_eq, trim_spec};
use crate::tool::{McpToolDefinition, ToolView};
use vstd::prelude::*;

verus! {

/// The value of the latest setting for `key`, if any.
pub open spec fn last_for<K, V>(s: Seq<(K, V)>, key: K) -> Option<V>
    decreases s.len(),
{
    if s.len() == 0 {
        None
    } else if s.last().0 == key {
        Some(s.last().1)
    } else {
        last_for(s.drop_last(), key)
    }
}

/// Abstract content of the in-memory host.
pub struct HostView {
    /// Servers that run.
    pub running: Seq<McpServerId>,
    /// Unhealthy reports: server and trimmed message.
    pub unhealthy: Seq<(McpServerId, Seq<char>)>,
    /// Tool catalogs by server name.
    pub tool_catalogs: Seq<(Seq<char>, Seq<ToolView>)>,
    /// Tool call results by server name and tool name.
    pub tool_call_results: Seq<((Seq<char>, Seq<char>), JsonView)>,
    /// Tool call stderr by server name and tool name.
    pub tool_call_stderr: Seq<((Seq<char>, Seq<char>), Seq<u8>)>,
    /// Startup stderr by server name.
    pub startup_stderr: Seq<(Seq<char>, Seq<u8>)>,
}

/// Views of tool definitions.
pub open spec fn tool_views(s: Seq<McpToolDefinition>) -> Seq<ToolView> {
    s.map_values(|t: McpToolDefinition| t@)
}

/// The in-memory runtime host used for tests and local runs.
#[derive(Debug)]
pub struct InMemoryHostState {
    running: Vec<McpServerId>,
    unhealthy: Vec<(McpServerId, String)>,
    tool_catalogs: Vec<(String, Vec<McpToolDefinition>)>,
    tool_call_results: Vec<(String, String, JsonValue)>,
    tool_call_stderr: Vec<(String, String, Vec<u8>)>,
    startup_stderr: Vec<(String, Vec<u8>)>,
}

impl View for InMemoryHostState {
    type V = HostView;

    closed spec fn view(&self) -> HostView {
        HostView {
            running: self.running@,
            unhealthy: self.unhealthy@.map_values(|p: (McpServerId, String)| (p.0, p.1@)),
            tool_catalogs: self.tool_catalogs@.map_values(|p: (String, Vec<McpToolDefinition>)| (p.0@, tool_views(p.1@))),
            tool_call_results: self.tool_call_results@.map_values(|p: (String, String, JsonValue)| ((p.0@, p.1@), p.2@)),
            tool_call_stderr: self.tool_call_stderr@.map_values(|p: (String, String, Vec<u8>)| ((p.0@, p.1@), p.2@)),
            startup_stderr: self.startup_stderr@.map_values(|p: (String, Vec<u8>)| (p.0@, p.1@)),
        }
    }
}

fn copy_bytes(b: &Vec<u8>) -> (r: Vec<u8>)
    ensures
        r@ == b@,
{
    let mut out: Vec<u8> = Vec::new();
    let n = b.len();
    for i in 0..n
        invariant
            n == b@.len(),
            out@ == b@.take(i as int),
    {
        out.push(b[i]);
        assert(out@ =~= b@.take(i + 1));
    }
    assert(b@.take(n as int) =~= b@);
    out
}

fn clone_tools(v: &Vec<McpToolDefinition>) -> (r: Vec<McpToolDefinition>)
    ensures
        tool_views(r@) == tool_views(v@),
{
    let mut out: Vec<McpToolDefinition> = Vec::new();
    let n = v.len();
    for i in 0..n
        invariant
            n == v@.len(),
            tool_views(out@) == tool_views(v@.take(i as int)),
    {
        let c = v[i].cloned();
        let ghost before = out@;
        out.push(c);
        assert(tool_views(out@) =~= tool_views(before).push(c@));
        assert(v@.take(i + 1) =~= v@.take(i as int).push(v@[i as int]));
        assert(tool_views(v@.take(i + 1)) =~= tool_views(v@.take(i as int)).push(v@[i as int]@));
    }
    assert(v@.take(n as int) =~= v@);
    out
}

fn is_running(running: &Vec<McpServerId>, id: McpServerId) -> (r: bool)
    ensures
        r == running@.contains(id),
{
    let n = running.len();
    for i in 0..n
        invariant
            n == running@.len(),
            forall|k: int| 0 <= k < i ==> running@[k] != id,
    {
        if running[i].same_as(&id) {
            assert(running@[i as int] == id);
            return true;
        }
    }
    false
}

fn without_unhealthy(v: &Vec<(McpServerId, String)>, id: McpServerId) -> (r: Vec<(McpServerId, String)>)
    ensures
        r@.map_values(|p: (McpServerId, String)| (p.0, p.1@)) == v@.map_values(
            |p: (McpServerId, String)| (p.0, p.1@),
        ).filter(|p: (McpServerId, Seq<char>)| p.0 != id),
{
    let ghost vv = v@.map_values(|p: (McpServerId, String)| (p.0, p.1@));
    let mut out: Vec<(McpServerId, String)> = Vec::new();
    let n = v.len();
    for k in 0..n
        invariant
            n == v@.len(),
            vv == v@.map_values(|p: (McpServerId, String)| (p.0, p.1@)),
            out@.map_values(|p: (McpServerId, String)| (p.0, p.1@)) == vv.take(k as int).filter(
                |p: (McpServerId, Seq<char>)| p.0 != id,
            ),
    {
        proof {
            reveal(Seq::filter);
            assert(vv.take(k + 1).drop_last() =~= vv.take(k as int));
            assert(vv.take(k + 1).last() == (v@[k as int].0, v@[k as int].1@));
        }
        let ghost before = out@;
        if !v[k].0.same_as(&id) {
            let p = (v[k].0, v[k].1.clone());
            out.push(p);
            assert(out@.map_values(|p: (McpServerId, String)| (p.0, p.1@)) =~= before.map_values(
                |p: (McpServerId, String)| (p.0, p.1@),
            ).push((p.0, p.1@)));
        } else {
            assert(out@.map_values(|p: (McpServerId, String)| (p.0, p.1@)) =~= before.map_values(
                |p: (McpServerId, String)| (p.0, p.1@),
            ));
        }
    }
    assert(vv.take(n as int) =~= vv);
    out
}

impl InMemoryHostState {
    /// A host with no server running and nothing configured.
    pub fn new() -> (r: Self)
        ensures
            r@.running.len() == 0,
            r@.unhealthy.len() == 0,
            r@.tool_catalogs.len() == 0,
            r@.tool_call_results.len() == 0,
            r@.tool_call_stderr.len() == 0,
            r@.startup_stderr.len() == 0,
    {
        InMemoryHostState {
            running: Vec::new(),
            unhealthy: Vec::new(),
            tool_catalogs: Vec::new(),
            tool_call_results: Vec::new(),
            tool_call_stderr: Vec::new(),
            startup_stderr: Vec::new(),
        }
    }

    /// Sets the tools a server lists.
    pub fn set_tool_catalog(&mut self, server_name: &McpServerName, tools: Vec<McpToolDefinition>)
        ensures
            final(self)@ == (HostView {
                tool_catalogs: old(self)@.tool_catalogs.push((server_name@, tool_views(tools@))),
                ..old(self)@
            }),
    {
        let entry = (server_name.as_str().to_owned(), tools);
        let ghost ev = (entry.0@, tool_views(entry.1@));
        self.tool_catalogs.push(entry);
        assert(self@.tool_catalogs =~= old(self)@.tool_catalogs.push(ev));
    }

    /// Reports a server unhealthy with `message`, trimmed, until it is next
    /// started or stopped.
    pub fn set_unhealthy(&mut self, server_id: McpServerId, message: &str)
        ensures
            final(self)@ == (HostView {
                unhealthy: old(self)@.unhealthy.push((server_id, trim_spec(message@))),
                ..old(self)@
            }),
    {
        let m = chars_of(message);
        let t = crate::text::trim_chars(m.as_slice());
        let s = crate::text::string_from_chars(t.as_slice());
        let ghost ev = (server_id, s@);
        self.unhealthy.push((server_id, s));
        assert(self@.unhealthy =~= old(self)@.unhealthy.push(ev));
    }

    /// Sets the content a tool call answers with.
    pub fn set_tool_call_result(&mut self, server_name: &McpServerName, tool_name: &str, result: JsonValue)
        ensures
            final(self)@ == (HostView {
                tool_call_results: old(self)@.tool_call_results.push(((server_name@, tool_name@), result@)),
                ..old(self)@
            }),
    {
        let entry = (server_name.as_str().to_owned(), tool_name.to_owned(), result);
        let ghost ev = ((entry.0@, entry.1@), entry.2@);
        self.tool_call_results.push(entry);
        assert(self@.tool_call_results =~= old(self)@.tool_call_results.push(ev));
    }

    /// Sets the stderr a tool call emits.
    pub fn set_tool_call_stderr(&mut self, server_name: &McpServerName, tool_name: &str, stderr: Vec<u8>)
        ensures
            final(self)@ == (HostView {
                tool_call_stderr: old(self)@.tool_call_stderr.push(((server_name@, tool_name@), stderr@)),
                ..old(self)@
            }),
    {
        let entry = (server_name.as_str().to_owned(), tool_name.to_owned(), stderr);
        let ghost ev = ((entry.0@, entry.1@), entry.2@);
        self.tool_call_stderr.push(entry);
        assert(self@.tool_call_stderr =~= old(self)@.tool_call_stderr.push(ev));
    }

    /// Sets the stderr a server emits when it starts.
    pub fn set_startup_stderr(&mut self, server_name: &McpServerName, stderr: Vec<u8>)
        ensures
            final(self)@ == (HostView {
                startup_stderr: old(self)@.startup_stderr.push((server_name@, stderr@)),
                ..old(self)@
            }),
    {
        let entry = (server_name.as_str().to_owned(), stderr);
        let ghost ev = (entry.0@, entry.1@);
        self.startup_stderr.push(entry);
        assert(self@.startup_stderr =~= old(self)@.startup_stderr.push(ev));
    }

    fn startup_stderr_of(&self, name: &McpServerName) -> (r: Option<Vec<u8>>)
        ensures
            r is Some <==> last_for(self@.startup_stderr, name@) is Some,
            r matches Some(x) ==> last_for(self@.startup_stderr, name@) == Some(x@),
    {
        let want = chars_of(name.as_str());
        let ghost sv = self@.startup_stderr;
        let mut i = self.startup_stderr.len();
        assert(sv.take(i as int) =~= sv);
        while i > 0
            invariant
                i <= self.startup_stderr@.len(),
                sv == self@.startup_stderr,
                sv.len() == self.startup_stderr@.len(),
                want@ == name@,
                last_for(sv, name@) == last_for(sv.take(i as int), name@),
            decreases i,
        {
            let k = i - 1;
            assert(sv.take(i as int).drop_last() =~= sv.take(k as int));
            assert(sv.take(i as int).last() == sv[k as int]);
            assert(sv[k as int] == (self.startup_stderr@[k as int].0@, self.startup_stderr@[k as int].1@));
            let key = chars_of(self.startup_stderr[k].0.as_str());
            if chars_eq(key.as_slice(), want.as_slice()) {
                return Some(copy_bytes(&self.startup_stderr[k].1));
            }
            i = k;
        }
        assert(sv.take(0) =~= Seq::<(Seq<char>, Seq<u8>)>::empty());
        None
    }

    /// Starts a server: it runs and no longer reports unhealthy; its
    /// configured startup stderr, if any, comes back.
    pub fn start(&mut self, server: &McpServerRegistration) -> (r: StartHostResult)
        ensures
            final(self)@.running == if old(self)@.running.contains(server@.id) {
                old(self)@.running
            } else {
                old(self)@.running.push(server@.id)
            },
            final(self)@.unhealthy == old(self)@.unhealthy.filter(|p: (McpServerId, Seq<char>)| p.0 != server@.id),
            final(self)@.tool_catalogs == old(self)@.tool_catalogs,
            final(self)@.tool_call_results == old(self)@.tool_call_results,
            final(self)@.tool_call_stderr == old(self)@.tool_call_stderr,
            final(self)@.startup_stderr == old(self)@.startup_stderr,
            match last_for(old(self)@.startup_stderr, server@.name) {
                Some(b) => r.stderr_output matches Some(x) && x@ == b,
                None => r.stderr_output is None,
            },
    {
        let id = server.id();
        if !is_running(&self.running, id) {
            self.running.push(id);
        }
        let kept = without_unhealthy(&self.unhealthy, id);
        self.unhealthy = kept;
        let stderr_output = self.startup_stderr_of(server.name());
        StartHostResult { stderr_output }
    }

    /// Stops a server: it no longer runs and no longer reports unhealthy.
    pub fn stop(&mut self, server: &McpServerRegistration)
        ensures
            final(self)@.running == old(self)@.running.filter(|x: McpServerId| x != server@.id),
            final(self)@.unhealthy == old(self)@.unhealthy.filter(|p: (McpServerId, Seq<char>)| p.0 != server@.id),
            final(self)@.tool_catalogs == old(self)@.tool_catalogs,
            final(self)@.tool_call_results == old(self)@.tool_call_results,
            final(self)@.tool_call_stderr == old(self)@.tool_call_stderr,
            final(self)@.startup_stderr == old(self)@.startup_stderr,
    {
        let id = server.id();
        let ghost old_running = self.running@;
        let mut kept: Vec<McpServerId> = Vec::new();
        let n = self.running.len();
        for k in 0..n
            invariant
                n == self.running@.len(),
                old_running == self.running@,
                kept@ == old_running.take(k as int).filter(|x: McpServerId| x != id),
        {
            proof {
                reveal(Seq::filter);
                assert(old_running.take(k + 1).drop_last() =~= old_running.take(k as int));
                assert(old_running.take(k + 1).last() == old_running[k as int]);
            }
            let x = self.running[k];
            if !x.same_as(&id) {
                kept.push(x);
            }
        }
        assert(old_running.take(n as int) =~= old_running);
        self.running = kept;
        let kept_unhealthy = without_unhealthy(&self.unhealthy, id);
        self.unhealthy = kept_unhealthy;
    }

    fn unhealthy_message(&self, id: McpServerId) -> (r: Option<String>)
        ensures
            match last_for(self@.unhealthy, id) {
                Some(m) => r matches Some(x) && x@ == m,
                None => r is None,
            },
    {
        let ghost sv = self@.unhealthy;
        let mut i = self.unhealthy.len();
        assert(sv.take(i as int) =~= sv);
        while i > 0
            invariant
                i <= self.unhealthy@.len(),
                sv == self@.unhealthy,
                sv.len() == self.unhealthy@.len(),
                last_for(sv, id) == last_for(sv.take(i as int), id),
            decreases i,
        {
            let k = i - 1;
            assert(sv.take(i as int).drop_last() =~= sv.take(k as int));
            assert(sv.take(i as int).last() == sv[k as int]);
            assert(sv[k as int] == (self.unhealthy@[k as int].0, self.unhealthy@[k as int].1@));
            if self.unhealthy[k].0.same_as(&id) {
                return Some(self.unhealthy[k].1.clone());
            }
            i = k;
        }
        assert(sv.take(0) =~= Seq::<(McpServerId, Seq<char>)>::empty());
        None
    }

    /// The health of a server checked at `now`: unknown when it does not
    /// run, unhealthy with the latest message when so reported, else
    /// healthy.
    pub fn health(&self, server: &McpServerRegistration, now: i64) -> (r: McpServerHealthSnapshot)
        ensures
            !self@.running.contains(server@.id) ==> r@ == (HealthSnapshotView {
                status: McpServerHealthStatus::Unknown,
                checked_at: now,
                message: None,
            }),
            self@.running.contains(server@.id) ==> match last_for(self@.unhealthy, server@.id) {
                Some(m) => r@.status == McpServerHealthStatus::Unhealthy && r@.checked_at == now && r@.message == (
                if trim_spec(m).len() == 0 {
                    None
                } else {
                    Some(trim_spec(m))
                }),
                None => r@ == (HealthSnapshotView {
                    status: McpServerHealthStatus::Healthy,
                    checked_at: now,
                    message: None,
                }),
            },
    {
        if !is_running(&self.running, server.id()) {
            return McpServerHealthSnapshot::unknown(now);
        }
        match self.unhealthy_message(server.id()) {
            Some(m) => McpServerHealthSnapshot::unhealthy(now, m.as_str()),
            None => McpServerHealthSnapshot::healthy(now),
        }
    }

    /// The tools a running server lists: its latest configured catalog, or
    /// none; `NotRunning` when it does not run.
    pub fn list_tools(&self, server: &McpServerRegistration) -> (r: Result<Vec<McpToolDefinition>, McpServerHostError>)
        ensures
            !self@.running.contains(server@.id) ==> r == Err::<Vec<McpToolDefinition>, McpServerHostError>(
                McpServerHostError::NotRunning(server@.id),
            ),
            self@.running.contains(server@.id) ==> (r matches Ok(tools) && tool_views(tools@) == match last_for(
                self@.tool_catalogs,
                server@.name,
            ) {
                Some(t) => t,
                None => Seq::<ToolView>::empty(),
            }),
    {
        if !is_running(&self.running, server.id()) {
            return Err(McpServerHostError::NotRunning(server.id()));
        }
        let want = chars_of(server.name().as_str());
        let ghost sv = self@.tool_catalogs;
        let mut i = self.tool_catalogs.len();
        assert(sv.take(i as int) =~= sv);
        while i > 0
            invariant
                i <= self.tool_catalogs@.len(),
                sv == self@.tool_catalogs,
                sv.len() == self.tool_catalogs@.len(),
                want@ == server@.name,
                self@.running.contains(server@.id),
                last_for(sv, server@.name) == last_for(sv.take(i as int), server@.name),
            decreases i,
        {
            let k = i - 1;
            assert(sv.take(i as int).drop_last() =~= sv.take(k as int));
            assert(sv.take(i as int).last() == sv[k as int]);
            assert(sv[k as int] == (self.tool_catalogs@[k as int].0@, tool_views(self.tool_catalogs@[k as int].1@)));
            let key = chars_of(self.tool_catalogs[k].0.as_str());
            if chars_eq(key.as_slice(), want.as_slice()) {
                return Ok(clone_tools(&self.tool_catalogs[k].1));
            }
            i = k;
        }
        assert(sv.take(0) =~= Seq::<(Seq<char>, Seq<ToolView>)>::empty());
        let empty: Vec<McpToolDefinition> = Vec::new();
        assert(tool_views(empty@) =~= Seq::<ToolView>::empty());
        Ok(empty)
    }

    fn result_for(&self, name: &McpServerName, tool_name: &str) -> (r: Option<JsonValue>)
        ensures
            match last_for(self@.tool_call_results, (name@, tool_name@)) {
                Some(c) => r matches Some(x) && x@ == c,
                None => r is None,
            },
    {
        let want_server = chars_of(name.as_str());
        let want_tool = chars_of(tool_name);
        let ghost rv = self@.tool_call_results;
        let mut i = self.tool_call_results.len();
        assert(rv.take(i as int) =~= rv);
        while i > 0
            invariant
                i <= self.tool_call_results@.len(),
                rv == self@.tool_call_results,
                rv.len() == self.tool_call_results@.len(),
                want_server@ == name@,
                want_tool@ == tool_name@,
                last_for(rv, (name@, tool_name@)) == last_for(rv.take(i as int), (name@, tool_name@)),
            decreases i,
        {
            let k = i - 1;
            assert(rv.take(i as int).drop_last() =~= rv.take(k as int));
            assert(rv.take(i as int).last() == rv[k as int]);
            let e = &self.tool_call_results[k];
            assert(rv[k as int] == ((e.0@, e.1@), e.2@));
            let a = chars_of(e.0.as_str());
            let b = chars_of(e.1.as_str());
            if chars_eq(a.as_slice(), want_server.as_slice()) && chars_eq(b.as_slice(), want_tool.as_slice()) {
                return Some(e.2.cloned());
            }
            i = k;
        }
        assert(rv.take(0) =~= Seq::<((Seq<char>, Seq<char>), JsonView)>::empty());
        None
    }

    fn call_stderr_for(&self, name: &McpServerName, tool_name: &str) -> (r: Option<Vec<u8>>)
        ensures
            match last_for(self@.tool_call_stderr, (name@, tool_name@)) {
                Some(b) => r matches Some(x) && x@ == b,
                None => r is None,
            },
    {
        let want_server = chars_of(name.as_str());
        let want_tool = chars_of(tool_name);
        let ghost sv = self@.tool_call_stderr;
        let mut i = self.tool_call_stderr.len();
        assert(sv.take(i as int) =~= sv);
        while i > 0
            invariant
                i <= self.tool_call_stderr@.len(),
                sv == self@.tool_call_stderr,
                sv.len() == self.tool_call_stderr@.len(),
                want_server@ == name@,
                want_tool@ == tool_name@,
                last_for(sv, (name@, tool_name@)) == last_for(sv.take(i as int), (name@, tool_name@)),
            decreases i,
        {
            let k = i - 1;
            assert(sv.take(i as int).drop_last() =~= sv.take(k as int));
            assert(sv.take(i as int).last() == sv[k as int]);
            let e = &self.tool_call_stderr[k];
            assert(sv[k as int] == ((e.0@, e.1@), e.2@));
            let a = chars_of(e.0.as_str());
            let b = chars_of(e.1.as_str());
            if chars_eq(a.as_slice(), want_server.as_slice()) && chars_eq(b.as_slice(), want_tool.as_slice()) {
                return Some(copy_bytes(&e.2));
            }
            i = k;
        }
        assert(sv.take(0) =~= Seq::<((Seq<char>, Seq<char>), Seq<u8>)>::empty());
        None
    }

    /// The answer of a tool call on a running server: the latest configured
    /// result for the server and tool, with its latest configured stderr;
    /// `ToolCallFailed` when no result is configured, `NotRunning` when the
    /// server does not run.
    pub fn call_tool(&self, server: &McpServerRegistration, tool_name: &str) -> (r: Result<ToolCallHostResult, McpServerHostError>)
        ensures
            !self@.running.contains(server@.id) ==> r == Err::<ToolCallHostResult, McpServerHostError>(
                McpServerHostError::NotRunning(server@.id),
            ),
            self@.running.contains(server@.id) ==> match last_for(self@.tool_call_results, (server@.name, tool_name@)) {
                None => r matches Err(McpServerHostError::ToolCallFailed { server_id, tool_name: t, reason })
                    && server_id == server@.id && t@ == tool_name@ && reason@ == "no result configured for this tool"@,
                Some(c) => r matches Ok(h) && h.content@ == c && match last_for(
                    self@.tool_call_stderr,
                    (server@.name, tool_name@),
                ) {
                    Some(b) => h.stderr_output matches Some(x) && x@ == b,
                    None => h.stderr_output is None,
                },
            },
    {
        if !is_running(&self.running, server.id()) {
            return Err(McpServerHostError::NotRunning(server.id()));
        }
        let content = match self.result_for(server.name(), tool_name) {
            Some(c) => c,
            None => {
                return Err(McpServerHostError::ToolCallFailed {
                    server_id: server.id(),
                    tool_name: tool_name.to_owned(),
                    reason: "no result configured for this tool".to_owned(),
                });
            },
        };
        let stderr_output = self.call_stderr_for(server.name(), tool_name);
        Ok(ToolCallHostResult { content, stderr_output })
    }
}

/// A started server runs and a stopped one does not; stopping one server
/// leaves every other server running as it was.
pub proof fn lemma_running_after_start_and_stop(running: Seq<McpServerId>, id: McpServerId, other: McpServerId)
    requires
        other != id,
    ensures
        (if running.contains(id) {
            running
        } else {
            running.push(id)
        }).contains(id),
        !running.filter(|x: McpServerId| x != id).contains(id),
        running.filter(|x: McpServerId| x != id).contains(other) <==> running.contains(other),
{
    let p = |x: McpServerId| x != id;
    if !running.contains(id) {
        assert(running.push(id)[running.len() as int] == id);
    }
    if running.filter(p).contains(id) {
        running.lemma_filter_contains_rev(p, id);
        let k = choose|k: int| 0 <= k < running.filter(p).len() && running.filter(p)[k] == id;
        #[allow(deprecated)]
        running.filter_lemma(p);
        assert(p(running.filter(p)[k]));
    }
    if running.filter(p).contains(other) {
        running.lemma_filter_contains_rev(p, other);
    }
    if running.contains(other) {
        let k = choose|k: int| 0 <= k < running.len() && running[k] == other;
        running.lemma_filter_contains(p, k);
    }
}

} // verus!
