//! Rules of the stderr log store: tenant scoping of object paths,
//! truncation of oversized blobs, the metadata index kept beside the blob
//! store, the rebuilding of metadata from stored paths, and the planning of
//! retention sweeps.

use crate::ids::{parse_uuid, uuid_text_spec, uuid_parse_result, LogEntryId, McpServerId, TenantId, ToolCallId};
use crate::log_capture::{LogEntryKind, LogEntryMetadata, LogMetaView, LogRetentionPolicy, PersistedLogEntryData};
use crate::text::{chars_of, chars_starts_with, push_str, push_uuid, string_from_chars};
use vstd::prelude::*;

verus! {

/// Errors returned by log store operations.
#[derive(Debug, Clone, PartialEq, Eq)]
pub enum ToolLogStoreError {
    /// Writing a log blob failed.
    StoreFailed(String),
    /// Reading a log blob failed.
    RetrieveFailed(String),
    /// Deleting a log blob failed.
    DeleteFailed(String),
    /// Listing log entries failed.
    ListFailed(String),
    /// The object path does not belong to the expected tenant.
    TenantMismatch {
        /// The object path that was rejected.
        path: String,
        /// The expected tenant-scoped prefix.
        expected_prefix: String,
    },
}

/// The human-readable text of a log store error.
pub open spec fn log_store_error_text(e: ToolLogStoreError) -> Seq<char> {
    match e {
        ToolLogStoreError::StoreFailed(m) => "log store write failed: "@ + m@,
        ToolLogStoreError::RetrieveFailed(m) => "log store read failed: "@ + m@,
        ToolLogStoreError::DeleteFailed(m) => "log store delete failed: "@ + m@,
        ToolLogStoreError::ListFailed(m) => "log store list failed: "@ + m@,
        ToolLogStoreError::TenantMismatch { path, expected_prefix } => "tenant mismatch: path '"@
            + path@ + "' does not start with expected prefix '"@ + expected_prefix@ + "'"@,
    }
}

impl ToolLogStoreError {
    /// The human-readable text of this error.
    pub fn message(&self) -> (r: String)
        ensures
            r@ == log_store_error_text(*self),
    {
        let mut v: Vec<char> = Vec::new();
        match self {
            ToolLogStoreError::StoreFailed(m) => {
                push_str(&mut v, "log store write failed: ");
                push_str(&mut v, m.as_str());
            },
            ToolLogStoreError::RetrieveFailed(m) => {
                push_str(&mut v, "log store read failed: ");
                push_str(&mut v, m.as_str());
            },
            ToolLogStoreError::DeleteFailed(m) => {
                push_str(&mut v, "log store delete failed: ");
                push_str(&mut v, m.as_str());
            },
            ToolLogStoreError::ListFailed(m) => {
                push_str(&mut v, "log store list failed: ");
                push_str(&mut v, m.as_str());
            },
            ToolLogStoreError::TenantMismatch { path, expected_prefix } => {
                push_str(&mut v, "tenant mismatch: path '");
                push_str(&mut v, path.as_str());
                push_str(&mut v, "' does not start with expected prefix '");
                push_str(&mut v, expected_prefix.as_str());
                push_str(&mut v, "'");
            },
        }
        assert(v@ =~= log_store_error_text(*self));
        string_from_chars(v.as_slice())
    }
}

/// The prefix under which all of a tenant's logs are stored.
pub open spec fn tenant_prefix_spec(tenant: TenantId) -> Seq<char> {
    "tool_logs/"@ + uuid_text_spec(tenant.0) + "/"@
}

/// The prefix under which all of a server's logs of a tenant are stored.
pub open spec fn server_prefix_spec(tenant: TenantId, server: McpServerId) -> Seq<char> {
    tenant_prefix_spec(tenant) + uuid_text_spec(server.0) + "/"@
}

/// The prefix under which all of a tenant's logs are stored.
pub fn tenant_prefix(tenant_id: TenantId) -> (r: String)
    ensures
        r@ == tenant_prefix_spec(tenant_id),
{
    let mut v: Vec<char> = Vec::new();
    push_str(&mut v, "tool_logs/");
    push_uuid(&mut v, tenant_id.0);
    push_str(&mut v, "/");
    assert(v@ =~= tenant_prefix_spec(tenant_id));
    string_from_chars(v.as_slice())
}

/// The prefix under which all of a server's logs of a tenant are stored.
pub fn server_prefix(tenant_id: TenantId, server_id: McpServerId) -> (r: String)
    ensures
        r@ == server_prefix_spec(tenant_id, server_id),
{
    let mut v: Vec<char> = Vec::new();
    push_str(&mut v, "tool_logs/");
    push_uuid(&mut v, tenant_id.0);
    push_str(&mut v, "/");
    push_uuid(&mut v, server_id.0);
    push_str(&mut v, "/");
    assert(v@ =~= server_prefix_spec(tenant_id, server_id));
    string_from_chars(v.as_slice())
}

fn starts_with_str(path: &str, prefix: &str) -> (r: bool)
    ensures
        r == prefix@.is_prefix_of(path@),
{
    let p = chars_of(path);
    let q = chars_of(prefix);
    let b = chars_starts_with(p.as_slice(), q.as_slice());
    proof {
        if b {
            assert(path@.subrange(0, prefix@.len() as int) =~= prefix@);
        } else if prefix@.is_prefix_of(path@) {
            assert(path@.subrange(0, prefix@.len() as int) =~= prefix@);
        }
    }
    b
}

/// Checks that `path` lies under the tenant's prefix.
pub fn validate_tenant_prefix(tenant_id: TenantId, path: &str) -> (r: Result<(), ToolLogStoreError>)
    ensures
        match r {
            Ok(()) => tenant_prefix_spec(tenant_id).is_prefix_of(path@),
            Err(ToolLogStoreError::TenantMismatch { path: p, expected_prefix }) =>
                !tenant_prefix_spec(tenant_id).is_prefix_of(path@) && p@ == path@ && expected_prefix@
                    == tenant_prefix_spec(tenant_id),
            Err(_) => false,
        },
{
    let expected_prefix = tenant_prefix(tenant_id);
    if !starts_with_str(path, expected_prefix.as_str()) {
        return Err(ToolLogStoreError::TenantMismatch { path: path.to_owned(), expected_prefix });
    }
    Ok(())
}

/// The marker appended to a truncated log.
pub open spec fn truncation_marker() -> Seq<u8> {
    "\n--- truncated at max_bytes_per_log ---\n"@.map_values(|c: char| c as u8)
}

/// A log cut to `max` bytes: unchanged when it fits; else, when `max`
/// leaves room for more than the marker, its first `max - marker` bytes
/// followed by the marker; else its first `max` bytes.
pub open spec fn truncated_spec(content: Seq<u8>, max: nat) -> Seq<u8> {
    if content.len() <= max {
        content
    } else if max <= truncation_marker().len() {
        content.take(max as int)
    } else {
        content.take(max - truncation_marker().len()) + truncation_marker()
    }
}

fn marker_bytes() -> (r: Vec<u8>)
    ensures
        r@ == truncation_marker(),
        r@.len() == 40,
{
    let s = "\n--- truncated at max_bytes_per_log ---\n";
    let c = chars_of(s);
    proof {
        reveal_strlit("\n--- truncated at max_bytes_per_log ---\n");
    }
    let mut out: Vec<u8> = Vec::new();
    let n = c.len();
    for i in 0..n
        invariant
            n == c@.len(),
            c@ == s@,
            out@ == s@.take(i as int).map_values(|ch: char| ch as u8),
    {
        let ghost before = out@;
        out.push(c[i] as u8);
        assert(s@.take(i + 1) =~= s@.take(i as int).push(s@[i as int]));
        assert(out@ =~= s@.take(i + 1).map_values(|ch: char| ch as u8));
    }
    assert(s@.take(n as int) =~= s@);
    out
}

/// Cuts a log to at most `max_bytes` bytes, marking the cut when the
/// limit leaves room for the marker.
pub fn truncate_if_needed(content: Vec<u8>, max_bytes: u64) -> (r: Vec<u8>)
    requires
        max_bytes <= usize::MAX,
    ensures
        r@ == truncated_spec(content@, max_bytes as nat),
        r@.len() == if content@.len() <= max_bytes { content@.len() } else { max_bytes as nat },
        content@.len() <= max_bytes ==> r@ == content@,
        content@.len() > max_bytes && max_bytes > 40 ==> r@.take(max_bytes - 40) == content@.take(
            max_bytes - 40,
        ),
        content@.len() > max_bytes && max_bytes <= 40 ==> r@ == content@.take(max_bytes as int),
{
    proof {
        if content@.len() > max_bytes {
            lemma_truncation_keeps_head(content@, max_bytes as nat);
            let rr = truncated_spec(content@, max_bytes as nat);
            if max_bytes > 40 {
                assert(rr.take(max_bytes - 40) =~= content@.take(max_bytes - 40));
            } else {
                assert(rr =~= content@.take(max_bytes as int));
            }
        }
    }
    let max = max_bytes as usize;
    if content.len() <= max {
        return content;
    }
    let marker = marker_bytes();
    if max <= marker.len() {
        let mut out: Vec<u8> = Vec::new();
        for i in 0..max
            invariant
                max < content@.len(),
                out@ == content@.take(i as int),
        {
            out.push(content[i]);
            assert(out@ =~= content@.take(i + 1));
        }
        return out;
    }
    let point = max - marker.len();
    let mut out: Vec<u8> = Vec::new();
    for i in 0..point
        invariant
            point < content@.len(),
            out@ == content@.take(i as int),
    {
        out.push(content[i]);
        assert(out@ =~= content@.take(i + 1));
    }
    let m = marker.len();
    let ghost head = out@;
    for i in 0..m
        invariant
            m == marker@.len(),
            out@ == head + marker@.take(i as int),
    {
        out.push(marker[i]);
        assert(out@ =~= head + marker@.take(i + 1));
    }
    assert(marker@.take(m as int) =~= marker@);
    out
}

/// Truncation never leaves a log longer than the limit, and leaves one
/// that fits unchanged.
pub proof fn lemma_truncation_bounds(content: Seq<u8>, max: nat)
    ensures
        truncated_spec(content, max).len() <= max,
        content.len() <= max ==> truncated_spec(content, max) == content,
        content.len() > max ==> truncated_spec(content, max).len() == max,
{
    assert(truncation_marker().len() == 40) by {
        reveal_strlit("\n--- truncated at max_bytes_per_log ---\n");
    }
}

/// A log that is cut keeps its head: when the limit leaves room for more
/// than the 40-byte marker, the first `max - 40` bytes of the result are
/// the first `max - 40` bytes of the log, and the marker (the bytes of
/// `"\n--- truncated at max_bytes_per_log ---\n"`) fills the last 40; when
/// it does not, the result is the log's first `max` bytes, with no marker.
pub proof fn lemma_truncation_keeps_head(content: Seq<u8>, max: nat)
    requires
        content.len() > max,
    ensures
        truncation_marker().len() == 40,
        truncation_marker() == seq![
            10u8, 45u8, 45u8, 45u8, 32u8, 116u8, 114u8, 117u8, 110u8, 99u8,
            97u8, 116u8, 101u8, 100u8, 32u8, 97u8, 116u8, 32u8, 109u8, 97u8,
            120u8, 95u8, 98u8, 121u8, 116u8, 101u8, 115u8, 95u8, 112u8, 101u8,
            114u8, 95u8, 108u8, 111u8, 103u8, 32u8, 45u8, 45u8, 45u8, 10u8,
        ],
        max > 40 ==> ({
            let r = truncated_spec(content, max);
            &&& r.len() == max
            &&& forall|i: int| 0 <= i < max - 40 ==> #[trigger] r[i] == content[i]
            &&& forall|i: int| max - 40 <= i < max ==> #[trigger] r[i] == truncation_marker()[i - (max - 40)]
        }),
        max <= 40 ==> ({
            let r = truncated_spec(content, max);
            &&& r.len() == max
            &&& forall|i: int| 0 <= i < max ==> #[trigger] r[i] == content[i]
        }),
{
    reveal_strlit("\n--- truncated at max_bytes_per_log ---\n");
    assert(truncation_marker().len() == 40);
    assert(truncation_marker() =~= seq![
            10u8, 45u8, 45u8, 45u8, 32u8, 116u8, 114u8, 117u8, 110u8, 99u8,
            97u8, 116u8, 101u8, 100u8, 32u8, 97u8, 116u8, 32u8, 109u8, 97u8,
            120u8, 95u8, 98u8, 121u8, 116u8, 101u8, 115u8, 95u8, 112u8, 101u8,
            114u8, 95u8, 108u8, 111u8, 103u8, 32u8, 45u8, 45u8, 45u8, 10u8,
    ]);
}

} // verus!

verus! {

/// The pieces of `s` between occurrences of `sep`, as `str::split` yields
/// them (an empty text gives one empty piece).
pub open spec fn split_spec(s: Seq<char>, sep: char) -> Seq<Seq<char>>
    decreases s.len(),
{
    if s.len() == 0 {
        seq![Seq::<char>::empty()]
    } else {
        let t = split_spec(s.drop_last(), sep);
        if s.last() == sep {
            t.push(Seq::empty())
        } else {
            t.update(t.len() - 1, t.last().push(s.last()))
        }
    }
}

proof fn lemma_split_nonempty(s: Seq<char>, sep: char)
    ensures
        split_spec(s, sep).len() >= 1,
    decreases s.len(),
{
    if s.len() > 0 {
        lemma_split_nonempty(s.drop_last(), sep);
    }
}

/// Splits `s` at every `sep`.
pub fn split_chars(s: &[char], sep: char) -> (r: Vec<Vec<char>>)
    ensures
        r@.map_values(|v: Vec<char>| v@) == split_spec(s@, sep),
{
    let mut done: Vec<Vec<char>> = Vec::new();
    let mut cur: Vec<char> = Vec::new();
    let n = s.len();
    assert(s@.take(0) =~= Seq::<char>::empty());
    assert(done@.map_values(|v: Vec<char>| v@).push(cur@) =~= seq![Seq::<char>::empty()]);
    for i in 0..n
        invariant
            n == s@.len(),
            done@.map_values(|v: Vec<char>| v@).push(cur@) == split_spec(s@.take(i as int), sep),
    {
        proof {
            lemma_split_nonempty(s@.take(i as int), sep);
            assert(s@.take(i + 1).drop_last() =~= s@.take(i as int));
            assert(s@.take(i + 1).last() == s@[i as int]);
        }
        let ghost dv = done@.map_values(|v: Vec<char>| v@);
        if s[i] == sep {
            let finished = cur;
            cur = Vec::new();
            done.push(finished);
            assert(done@.map_values(|v: Vec<char>| v@) =~= dv.push(finished@));
            assert(done@.map_values(|v: Vec<char>| v@).push(cur@) =~= dv.push(finished@).push(Seq::empty()));
        } else {
            let ghost old_cur = cur@;
            cur.push(s[i]);
            assert(done@.map_values(|v: Vec<char>| v@).push(cur@) =~= dv.push(old_cur).update(
                dv.len() as int,
                old_cur.push(s@[i as int]),
            ));
        }
    }
    assert(s@.take(n as int) =~= s@);
    let ghost dv = done@.map_values(|v: Vec<char>| v@);
    done.push(cur);
    assert(done@.map_values(|v: Vec<char>| v@) =~= dv.push(cur@));
    done
}

/// The kind that a stored path's shape gives:
/// `tool_logs/{tenant}/{server}/startup/{file}` or
/// `tool_logs/{tenant}/{server}/call/{call id}/{file}`.
pub open spec fn kind_of_segments(segs: Seq<Seq<char>>) -> Option<LogEntryKind> {
    if segs.len() == 5 && segs[0] == "tool_logs"@ && segs[3] == "startup"@ {
        Some(LogEntryKind::ServerStartup)
    } else if segs.len() == 6 && segs[0] == "tool_logs"@ && segs[3] == "call"@ {
        match uuid_parse_result(segs[4]) {
            Some(c) => Some(LogEntryKind::ToolCall { call_id: ToolCallId(c) }),
            None => None,
        }
    } else {
        None
    }
}

/// The entry identifier that a stored path's file name gives: the name
/// without its `.stderr` suffix, parsed as a UUID.
pub open spec fn id_of_file(file: Seq<char>) -> Option<u128> {
    if file.len() == 0 || !".stderr"@.is_suffix_of(file) || file.len() == 7 {
        None
    } else {
        uuid_parse_result(file.take(file.len() - 7))
    }
}

/// Metadata rebuilt from a stored object's path, size and modification
/// time, when the path has one of the shapes that log capture writes.
pub open spec fn rebuild_spec(path: Seq<char>, size: u64, last_modified: i64, server_id: McpServerId, retention_period: i64) -> Option<LogMetaView> {
    let segs = split_spec(path, '/');
    match id_of_file(segs.last()) {
        None => None,
        Some(id) => match kind_of_segments(segs) {
            None => None,
            Some(kind) => Some(LogMetaView {
                id: LogEntryId(id),
                server_id,
                kind,
                object_path: path,
                byte_count: size,
                captured_at: last_modified,
                expires_at: (last_modified + retention_period) as i64,
            }),
        },
    }
}

fn eq_lit(v: &Vec<char>, lit: &str) -> (r: bool)
    ensures
        r == (v@ == lit@),
{
    let l = chars_of(lit);
    crate::text::chars_eq(v.as_slice(), l.as_slice())
}

fn parse_kind(segs: &Vec<Vec<char>>) -> (r: Option<LogEntryKind>)
    ensures
        r == kind_of_segments(segs@.map_values(|v: Vec<char>| v@)),
        forall|x: u128|
            segs@.len() == 6 && segs@[0]@ == "tool_logs"@ && segs@[3]@ == "call"@ && segs@[4]@ == uuid_text_spec(x)
                ==> uuid_parse_result(#[trigger] uuid_text_spec(x)) == Some(x),
{
    let ghost sv = segs@.map_values(|v: Vec<char>| v@);
    if segs.len() == 5 && eq_lit(&segs[0], "tool_logs") && eq_lit(&segs[3], "startup") {
        assert(sv[0] == segs@[0]@ && sv[3] == segs@[3]@);
        return Some(LogEntryKind::ServerStartup);
    }
    proof {
        if sv.len() == 5 {
            assert(sv[0] == segs@[0]@ && sv[3] == segs@[3]@);
        }
    }
    if segs.len() == 6 && eq_lit(&segs[0], "tool_logs") && eq_lit(&segs[3], "call") {
        assert(sv[0] == segs@[0]@ && sv[3] == segs@[3]@ && sv[4] == segs@[4]@);
        let call_text = string_from_chars(segs[4].as_slice());
        return match parse_uuid(call_text.as_str()) {
            Some(c) => Some(LogEntryKind::ToolCall { call_id: ToolCallId(c) }),
            None => None,
        };
    }
    proof {
        if sv.len() == 6 {
            assert(sv[0] == segs@[0]@ && sv[3] == segs@[3]@);
        }
    }
    None
}

fn parse_file_id(file: &Vec<char>) -> (r: Option<u128>)
    ensures
        r == id_of_file(file@),
        forall|x: u128|
            file@ == uuid_text_spec(x) + ".stderr"@ ==> uuid_parse_result(#[trigger] uuid_text_spec(x)) == Some(x),
{
    let suffix = chars_of(".stderr");
    proof {
        reveal_strlit(".stderr");
    }
    assert(suffix@.len() == 7);
    let n = file.len();
    if n == 0 || n < 7 {
        return None;
    }
    let mut i: usize = 0;
    while i < 7
        invariant
            n == file@.len(),
            n >= 7,
            suffix@ == ".stderr"@,
            suffix@.len() == 7,
            i <= 7,
            forall|k: int| 0 <= k < i ==> file@[n - 7 + k] == suffix@[k],
        decreases 7 - i,
    {
        if file[n - 7 + i] != suffix[i] {
            proof {
                assert(file@.subrange(n - 7, n as int)[i as int] != ".stderr"@[i as int]);
            }
            return None;
        }
        i = i + 1;
    }
    assert(file@.subrange(n - 7, n as int) =~= ".stderr"@);
    if n == 7 {
        return None;
    }
    let mut head: Vec<char> = Vec::new();
    for k in 0..n - 7
        invariant
            n == file@.len(),
            n > 7,
            head@ == file@.take(k as int),
    {
        head.push(file[k]);
        assert(head@ =~= file@.take(k + 1));
    }
    let text = string_from_chars(head.as_slice());
    let r = parse_uuid(text.as_str());
    assert forall|x: u128| file@ == uuid_text_spec(x) + ".stderr"@ implies uuid_parse_result(
        #[trigger] uuid_text_spec(x),
    ) == Some(x) by {
        assert(file@.take(n - 7) =~= uuid_text_spec(x));
        assert(text@ == uuid_text_spec(x));
    }
    r
}

/// Rebuilds log metadata from a stored object's path, size and
/// modification time; `None` when the path does not have a shape that log
/// capture writes or its identifiers do not parse.
pub fn rebuild_metadata_from_path(
    path: &str,
    size: u64,
    last_modified: i64,
    server_id: McpServerId,
    retention_period: i64,
) -> (r: Option<LogEntryMetadata>)
    requires
        i64::MIN <= last_modified + retention_period <= i64::MAX,
    ensures
        match r {
            Some(m) => rebuild_spec(path@, size, last_modified, server_id, retention_period) == Some(m@),
            None => rebuild_spec(path@, size, last_modified, server_id, retention_period) is None,
        },
        capture_rebuilds(path@, size, last_modified, server_id, retention_period),
{
    let pc = chars_of(path);
    let segs = split_chars(pc.as_slice(), '/');
    proof {
        lemma_split_nonempty(path@, '/');
    }
    let ghost sv = segs@.map_values(|v: Vec<char>| v@);
    let last = segs.len() - 1;
    assert(sv.last() == segs@[last as int]@);
    let fid = parse_file_id(&segs[last]);
    let pk = parse_kind(&segs);
    proof {
        assert forall|tenant: TenantId, server: McpServerId, kind: LogEntryKind, id: LogEntryId|
            #[trigger] crate::log_capture::object_path_spec(tenant, server, kind, id) == path@ implies rebuild_spec(
                path@,
                size,
                last_modified,
                server_id,
                retention_period,
            ) == Some(captured_meta(path@, kind, id, server_id, size, last_modified, retention_period)) by {
            lemma_capture_path_split(tenant, server, kind, id);
            let cs = capture_segments(tenant, server, kind, id);
            assert(sv == cs);
            assert(segs@[last as int]@ == capture_file_name(id));
            assert(uuid_parse_result(uuid_text_spec(id.0)) == Some(id.0));
            match kind {
                LogEntryKind::ToolCall { call_id } => {
                    assert(segs@[0]@ == sv[0] && segs@[3]@ == sv[3] && segs@[4]@ == sv[4]);
                    assert(uuid_parse_result(uuid_text_spec(call_id.0)) == Some(call_id.0));
                },
                LogEntryKind::ServerStartup => {},
            }
            lemma_rebuild_after_capture(tenant, server, kind, id, server_id, size, last_modified, retention_period);
        }
    }
    let id = match fid {
        Some(id) => id,
        None => {
            return None;
        },
    };
    let kind = match pk {
        Some(k) => k,
        None => {
            return None;
        },
    };
    Some(LogEntryMetadata::from_persisted(PersistedLogEntryData {
        id: LogEntryId(id),
        server_id,
        kind,
        object_path: path.to_owned(),
        byte_count: size,
        captured_at: last_modified,
        expires_at: last_modified + retention_period,
    }))
}

/// Metadata rebuilt from a listing of stored objects (path, size and
/// modification time of each), skipping objects whose path does not have a
/// log shape; listing order kept.
pub open spec fn rebuilt_all(listing: Seq<(Seq<char>, u64, i64)>, server_id: McpServerId, retention_period: i64) -> Seq<LogMetaView>
    decreases listing.len(),
{
    if listing.len() == 0 {
        Seq::empty()
    } else {
        let t = rebuilt_all(listing.drop_last(), server_id, retention_period);
        let o = listing.last();
        match rebuild_spec(o.0, o.1, o.2, server_id, retention_period) {
            Some(m) => t.push(m),
            None => t,
        }
    }
}

/// Views of a sequence of log metadata.
pub open spec fn meta_views(s: Seq<LogEntryMetadata>) -> Seq<LogMetaView> {
    s.map_values(|m: LogEntryMetadata| m@)
}

/// Rebuilds metadata for every listed object that has a log shape.
pub fn rebuild_listing(listing: &Vec<(String, u64, i64)>, server_id: McpServerId, retention_period: i64) -> (r: Vec<LogEntryMetadata>)
    requires
        forall|i: int| 0 <= i < listing@.len() ==> i64::MIN <= #[trigger] listing@[i].2 + retention_period <= i64::MAX,
    ensures
        meta_views(r@) == rebuilt_all(
            listing@.map_values(|o: (String, u64, i64)| (o.0@, o.1, o.2)),
            server_id,
            retention_period,
        ),
        forall|k: int|
            0 <= k < listing@.len() ==> capture_rebuilds(
                (#[trigger] listing@[k]).0@,
                listing@[k].1,
                listing@[k].2,
                server_id,
                retention_period,
            ),
{
    let ghost lv = listing@.map_values(|o: (String, u64, i64)| (o.0@, o.1, o.2));
    let mut out: Vec<LogEntryMetadata> = Vec::new();
    let n = listing.len();
    for i in 0..n
        invariant
            n == listing@.len(),
            lv == listing@.map_values(|o: (String, u64, i64)| (o.0@, o.1, o.2)),
            forall|k: int| 0 <= k < listing@.len() ==> i64::MIN <= #[trigger] listing@[k].2 + retention_period <= i64::MAX,
            meta_views(out@) == rebuilt_all(lv.take(i as int), server_id, retention_period),
            forall|k: int|
                0 <= k < i ==> capture_rebuilds(
                    (#[trigger] listing@[k]).0@,
                    listing@[k].1,
                    listing@[k].2,
                    server_id,
                    retention_period,
                ),
    {
        let o = &listing[i];
        assert(lv.take(i + 1).drop_last() =~= lv.take(i as int));
        assert(lv.take(i + 1).last() == (o.0@, o.1, o.2));
        let ghost before = out@;
        match rebuild_metadata_from_path(o.0.as_str(), o.1, o.2, server_id, retention_period) {
            Some(m) => {
                out.push(m);
                assert(meta_views(out@) =~= meta_views(before).push(out@[before.len() as int]@));
            },
            None => {},
        }
    }
    assert(lv.take(n as int) =~= lv);
    out
}

} // verus!

verus! {

/// The clock reading and retention policy of a sweep.
#[derive(Debug)]
pub struct SweepContext<'a> {
    /// Retention policy governing expiry and count limits.
    pub policy: &'a LogRetentionPolicy,
    /// Current time, microseconds since the epoch.
    pub now: i64,
}

/// The object paths that a sweep deletes: first the expired entries, then
/// the oldest of the rest beyond the per-server limit.
#[derive(Debug)]
pub struct SweepPlan {
    /// Paths of expired entries, in index order.
    pub expired: Vec<String>,
    /// Paths of the excess unexpired entries, oldest first.
    pub excess: Vec<String>,
}

/// Views of a vector of strings.
pub open spec fn string_views(v: Seq<String>) -> Seq<Seq<char>> {
    v.map_values(|s: String| s@)
}

/// The entries stored under the tenant's prefix.
pub open spec fn tenant_entries_spec(s: Seq<LogMetaView>, tenant: TenantId) -> Seq<LogMetaView> {
    s.filter(|e: LogMetaView| tenant_prefix_spec(tenant).is_prefix_of(e.object_path))
}

/// The entries that have expired at `now`.
pub open spec fn expired_spec(s: Seq<LogMetaView>, now: i64) -> Seq<LogMetaView> {
    s.filter(|e: LogMetaView| e.expires_at < now)
}

/// The object paths of the entries.
pub open spec fn paths_of(s: Seq<LogMetaView>) -> Seq<Seq<char>> {
    s.map_values(|e: LogMetaView| e.object_path)
}

/// The unexpired entries whose path was not already swept.
pub open spec fn remaining_spec(s: Seq<LogMetaView>, now: i64, swept: Seq<Seq<char>>) -> Seq<LogMetaView> {
    s.filter(|e: LogMetaView| !(e.expires_at < now) && !swept.contains(e.object_path))
}

/// Entry `i` comes before entry `j` in capture order, ties kept in index
/// order (the order a stable sort by capture time gives).
pub open spec fn earlier(s: Seq<LogMetaView>, i: int, j: int) -> bool {
    s[i].captured_at < s[j].captured_at || (s[i].captured_at == s[j].captured_at && i < j)
}

/// `out` is the paths of the `k` earliest entries of `s` in capture order,
/// earliest first: the first `k` of `s` stably sorted by capture time.
pub open spec fn oldest_first(s: Seq<LogMetaView>, k: nat, out: Seq<Seq<char>>) -> bool {
    exists|idx: Seq<int>|
        #![trigger idx.len()]
        idx.len() == k && out.len() == k && (forall|t: int|
            0 <= t < k ==> 0 <= #[trigger] idx[t] < s.len() && out[t] == s[idx[t]].object_path) && (
        forall|t: int, u: int| 0 <= t < u < k ==> earlier(s, #[trigger] idx[t], #[trigger] idx[u]))
            && (forall|j: int, t: int|
            0 <= j < s.len() && !idx.contains(j) && 0 <= t < k ==> #[trigger] earlier(s, idx[t], j))
}

proof fn lemma_cover(idx: Seq<int>, n: int)
    requires
        n >= 0,
        forall|j: int| 0 <= j < n ==> idx.contains(j),
    ensures
        n <= idx.len(),
{
    broadcast use vstd::seq_lib::seq_to_set_is_finite;
    vstd::set_lib::lemma_int_range(0, n);
    assert(vstd::set_lib::set_int_range(0, n).subset_of(idx.to_set()));
    vstd::set_lib::lemma_len_subset(vstd::set_lib::set_int_range(0, n), idx.to_set());
    idx.lemma_cardinality_of_set();
}

fn earlier_exec(rem: &Vec<LogEntryMetadata>, i: usize, j: usize) -> (r: bool)
    requires
        i < rem@.len(),
        j < rem@.len(),
    ensures
        r == earlier(meta_views(rem@), i as int, j as int),
{
    let a = rem[i].captured_at();
    let b = rem[j].captured_at();
    a < b || (a == b && i < j)
}

/// Paths of the `k` earliest entries in capture order, earliest first.
pub fn select_oldest(rem: &Vec<LogEntryMetadata>, k: usize) -> (r: Vec<String>)
    requires
        k <= rem@.len(),
    ensures
        oldest_first(meta_views(rem@), k as nat, string_views(r@)),
{
    let ghost s = meta_views(rem@);
    let n = rem.len();
    let mut chosen: Vec<usize> = Vec::new();
    let mut out: Vec<String> = Vec::new();
    let ghost mut idx: Seq<int> = Seq::empty();
    while chosen.len() < k
        invariant
            n == rem@.len(),
            s == meta_views(rem@),
            s.len() == n,
            k <= n,
            chosen@.len() <= k,
            idx.len() == chosen@.len(),
            out@.len() == chosen@.len(),
            forall|t: int| 0 <= t < idx.len() ==> #[trigger] idx[t] == chosen@[t] as int,
            forall|t: int|
                0 <= t < idx.len() ==> 0 <= #[trigger] idx[t] < n && string_views(out@)[t]
                    == s[idx[t]].object_path,
            forall|t: int, u: int| 0 <= t < u < idx.len() ==> earlier(s, #[trigger] idx[t], #[trigger] idx[u]),
            forall|j: int|
                0 <= j < n ==> (idx.contains(j) <==> (idx.len() > 0 && (j == idx.last() || earlier(s, j, idx.last())))),
        decreases k - chosen@.len(),
    {
        let c = chosen.len();
        let mut found = false;
        let mut best: usize = 0;
        let mut j: usize = 0;
        proof {
            if c > 0 {
                assert(idx[c - 1] == chosen@[c - 1] as int);
            }
        }
        while j < n
            invariant
                n == rem@.len(),
                s == meta_views(rem@),
                s.len() == n,
                j <= n,
                c == chosen@.len(),
                c == idx.len(),
                c > 0 ==> chosen@[c - 1] as int == idx.last(),
                c > 0 ==> chosen@[c - 1] < n,
                c == 0 && j > 0 ==> found,
                found ==> best < j && (c == 0 || earlier(s, idx.last(), best as int)),
                found ==> forall|x: int| 0 <= x < j && (c == 0 || earlier(s, idx.last(), x)) ==> x == best || earlier(s, best as int, x),
                !found ==> forall|x: int| 0 <= x < j ==> !(c == 0 || earlier(s, idx.last(), x)),
            decreases n - j,
        {
            let cand = c == 0 || earlier_exec(rem, chosen[c - 1], j);
            proof {
                assert(cand == (c == 0 || earlier(s, idx.last(), j as int)));
            }
            if cand {
                if !found || earlier_exec(rem, j, best) {
                    proof {
                        assert forall|x: int| 0 <= x < j + 1 && (c == 0 || earlier(s, idx.last(), x)) implies x == j || earlier(s, j as int, x) by {
                            if x != j {
                                if found {
                                    assert(x == best || earlier(s, best as int, x));
                                } else {
                                    assert(!(c == 0 || earlier(s, idx.last(), x)));
                                }
                            }
                        }
                    }
                    found = true;
                    best = j;
                } else {
                    proof {
                        assert(earlier(s, best as int, j as int));
                        assert forall|x: int| 0 <= x < j + 1 && (c == 0 || earlier(s, idx.last(), x)) implies x == best || earlier(s, best as int, x) by {
                            if x < j {
                                assert(x == best || earlier(s, best as int, x));
                            }
                        }
                    }
                }
            } else {
                proof {
                    if found {
                        assert forall|x: int| 0 <= x < j + 1 && (c == 0 || earlier(s, idx.last(), x)) implies x == best || earlier(s, best as int, x) by {
                            if x < j {
                                assert(x == best || earlier(s, best as int, x));
                            }
                        }
                    } else {
                        assert forall|x: int| 0 <= x < j + 1 implies !(c == 0 || earlier(s, idx.last(), x)) by {
                            if x < j {
                                assert(!(c == 0 || earlier(s, idx.last(), x)));
                            }
                        }
                    }
                }
            }
            j = j + 1;
        }
        proof {
            if !found {
                if c == 0 {
                    assert(n > 0);
                } else {
                    assert forall|j: int| 0 <= j < n implies idx.contains(j) by {
                        assert(!earlier(s, idx.last(), j));
                    }
                    lemma_cover(idx, n as int);
                }
            }
        }
        let ghost prev = idx;
        chosen.push(best);
        let path = rem[best].object_path().to_owned();
        let ghost before_out = out@;
        out.push(path);
        proof {
            idx = prev.push(best as int);
            assert(string_views(out@) =~= string_views(before_out).push(s[best as int].object_path));
            assert forall|t: int, u: int| 0 <= t < u < idx.len() implies earlier(s, #[trigger] idx[t], #[trigger] idx[u]) by {
                if u == prev.len() && t < prev.len() {
                    let lt = prev.last();
                    if prev[t] != lt {
                        assert(prev.contains(prev[t]));
                        assert(earlier(s, prev[t], lt));
                    }
                }
            }
            assert forall|j: int| 0 <= j < n implies (idx.contains(j) <==> (j == idx.last() || earlier(s, j, idx.last()))) by {
                if idx.contains(j) {
                    let t = choose|t: int| 0 <= t < idx.len() && idx[t] == j;
                    if t < prev.len() {
                        assert(prev.contains(j));
                    }
                } else {
                    assert(!prev.contains(j)) by {
                        if prev.contains(j) {
                            let t = choose|t: int| 0 <= t < prev.len() && prev[t] == j;
                            assert(idx[t] == j);
                        }
                    }
                    if j != best as int {
                        if c > 0 {
                            if !earlier(s, prev.last(), j) {
                                assert(j == prev.last() || earlier(s, j, prev.last()));
                            }
                        }
                        assert(j == best || earlier(s, best as int, j));
                    }
                }
            }
        }
    }
    proof {
        assert forall|j: int, t: int| 0 <= j < s.len() && !idx.contains(j) && 0 <= t < k implies #[trigger] earlier(s, idx[t], j) by {
            let lt = idx.last();
            assert(!(j == lt || earlier(s, j, lt)));
            if idx[t] != lt {
                assert(idx.contains(idx[t]));
                assert(earlier(s, idx[t], lt));
            }
        }
        assert(idx.len() == k);
    }
    out
}

} // verus!

verus! {

fn contains_path(paths: &Vec<String>, p: &str) -> (r: bool)
    ensures
        r == string_views(paths@).contains(p@),
{
    let pc = chars_of(p);
    let n = paths.len();
    for i in 0..n
        invariant
            n == paths@.len(),
            pc@ == p@,
            forall|k: int| 0 <= k < i ==> (#[trigger] paths@[k])@ != p@,
    {
        let qc = chars_of(paths[i].as_str());
        if crate::text::chars_eq(qc.as_slice(), pc.as_slice()) {
            assert(string_views(paths@)[i as int] == p@);
            return true;
        }
    }
    proof {
        if string_views(paths@).contains(p@) {
            let k = choose|k: int| 0 <= k < string_views(paths@).len() && string_views(paths@)[k] == p@;
            assert(paths@[k]@ == p@);
        }
    }
    false
}

/// Plans a retention sweep over a server's entries: among the entries
/// stored under the tenant's prefix, the expired ones are deleted, and of
/// the rest (unexpired, and not at a path already swept) the oldest beyond
/// the policy's per-server limit, in capture order with ties kept in index
/// order.
pub fn plan_sweep(tenant_id: TenantId, entries: &Vec<LogEntryMetadata>, sweep: &SweepContext<'_>) -> (r: SweepPlan)
    ensures
        ({
            let t = tenant_entries_spec(meta_views(entries@), tenant_id);
            let ex = paths_of(expired_spec(t, sweep.now));
            let rem = remaining_spec(t, sweep.now, ex);
            let max = sweep.policy.max_logs_per_server;
            &&& string_views(r.expired@) == ex
            &&& rem.len() <= max ==> r.excess@.len() == 0
            &&& rem.len() > max ==> oldest_first(rem, (rem.len() - max) as nat, string_views(r.excess@))
        }),
{
    let ghost ev = meta_views(entries@);
    let prefix = tenant_prefix(tenant_id);
    let n = entries.len();
    let mut tenant: Vec<LogEntryMetadata> = Vec::new();
    for i in 0..n
        invariant
            n == entries@.len(),
            ev == meta_views(entries@),
            prefix@ == tenant_prefix_spec(tenant_id),
            meta_views(tenant@) == tenant_entries_spec(ev.take(i as int), tenant_id),
    {
        proof {
            reveal(Seq::filter);
            assert(ev.take(i + 1).drop_last() =~= ev.take(i as int));
            assert(ev.take(i + 1).last() == entries@[i as int]@);
        }
        let ghost before = tenant@;
        if starts_with_str(entries[i].object_path(), prefix.as_str()) {
            let c = entries[i].cloned();
            tenant.push(c);
            assert(meta_views(tenant@) =~= meta_views(before).push(c@));
        } else {
            assert(meta_views(tenant@) =~= meta_views(before));
        }
    }
    assert(ev.take(n as int) =~= ev);
    let ghost tv = meta_views(tenant@);
    let m = tenant.len();
    let mut expired: Vec<String> = Vec::new();
    for i in 0..m
        invariant
            m == tenant@.len(),
            tv == meta_views(tenant@),
            string_views(expired@) == paths_of(expired_spec(tv.take(i as int), sweep.now)),
    {
        proof {
            reveal(Seq::filter);
            assert(tv.take(i + 1).drop_last() =~= tv.take(i as int));
            assert(tv.take(i + 1).last() == tenant@[i as int]@);
        }
        let ghost before = expired@;
        if sweep.policy.is_expired(&tenant[i], sweep.now) {
            let path = tenant[i].object_path().to_owned();
            expired.push(path);
            assert(string_views(expired@) =~= string_views(before).push(tenant@[i as int]@.object_path));
            assert(paths_of(expired_spec(tv.take(i + 1), sweep.now)) =~= paths_of(expired_spec(tv.take(i as int), sweep.now)).push(tv[i as int].object_path));
        } else {
            assert(string_views(expired@) =~= string_views(before));
        }
    }
    assert(tv.take(m as int) =~= tv);
    let ghost exv = string_views(expired@);
    let mut rem: Vec<LogEntryMetadata> = Vec::new();
    for i in 0..m
        invariant
            m == tenant@.len(),
            tv == meta_views(tenant@),
            exv == string_views(expired@),
            meta_views(rem@) == remaining_spec(tv.take(i as int), sweep.now, exv),
    {
        proof {
            reveal(Seq::filter);
            assert(tv.take(i + 1).drop_last() =~= tv.take(i as int));
            assert(tv.take(i + 1).last() == tenant@[i as int]@);
        }
        let ghost before = rem@;
        if !sweep.policy.is_expired(&tenant[i], sweep.now) && !contains_path(&expired, tenant[i].object_path()) {
            let c = tenant[i].cloned();
            rem.push(c);
            assert(meta_views(rem@) =~= meta_views(before).push(c@));
        } else {
            assert(meta_views(rem@) =~= meta_views(before));
        }
    }
    assert(tv.take(m as int) =~= tv);
    let max = sweep.policy.max_logs_per_server;
    if rem.len() <= max {
        return SweepPlan { expired, excess: Vec::new() };
    }
    let excess = select_oldest(&rem, rem.len() - max);
    SweepPlan { expired, excess }
}

/// A sweep leaves at most the per-server limit of unexpired entries: of
/// the entries it considers, those not deleted as excess number the
/// smaller of their count and the limit.
pub proof fn lemma_sweep_respects_limit(rem: Seq<LogMetaView>, max: nat, excess: Seq<Seq<char>>)
    requires
        rem.len() <= max ==> excess.len() == 0,
        rem.len() > max ==> oldest_first(rem, (rem.len() - max) as nat, excess),
    ensures
        rem.len() - excess.len() == if rem.len() <= max { rem.len() as int } else { max as int },
{
}

} // verus!

verus! {

/// Index of the first entry stored at `path`, if any.
pub open spec fn first_at_path(s: Seq<LogMetaView>, path: Seq<char>) -> Option<int> {
    if exists|i: int| 0 <= i < s.len() && (#[trigger] s[i]).object_path == path {
        Some(
            choose|i: int|
                0 <= i < s.len() && (#[trigger] s[i]).object_path == path && forall|j: int|
                    0 <= j < i ==> (#[trigger] s[j]).object_path != path,
        )
    } else {
        None
    }
}

proof fn lemma_first_at_path(s: Seq<LogMetaView>, path: Seq<char>, i: int)
    requires
        0 <= i < s.len(),
        s[i].object_path == path,
        forall|j: int| 0 <= j < i ==> (#[trigger] s[j]).object_path != path,
    ensures
        first_at_path(s, path) == Some(i),
{
    assert(exists|i: int| 0 <= i < s.len() && (#[trigger] s[i]).object_path == path);
    let k = choose|k: int|
        0 <= k < s.len() && (#[trigger] s[k]).object_path == path && forall|j: int|
            0 <= j < k ==> (#[trigger] s[j]).object_path != path;
    assert(0 <= i < s.len() && s[i].object_path == path && forall|j: int|
        0 <= j < i ==> (#[trigger] s[j]).object_path != path);
    if k < i {
        assert(s[k].object_path != path);
    } else if k > i {
        assert(s[i].object_path != path);
    }
}

/// The index after storing `m` at its path.
pub open spec fn index_insert(s: Seq<LogMetaView>, m: LogMetaView) -> Seq<LogMetaView> {
    match first_at_path(s, m.object_path) {
        Some(i) => s.update(i, m),
        None => s.push(m),
    }
}

/// The index after storing each of `items` in turn.
pub open spec fn index_insert_all(s: Seq<LogMetaView>, items: Seq<LogMetaView>) -> Seq<LogMetaView>
    decreases items.len(),
{
    if items.len() == 0 {
        s
    } else {
        index_insert(index_insert_all(s, items.drop_last()), items.last())
    }
}

/// The metadata index kept beside the blob store, keyed by object path:
/// storing at a path replaces what was stored there.
#[derive(Debug)]
pub struct LogMetadataIndex {
    entries: Vec<LogEntryMetadata>,
}

impl View for LogMetadataIndex {
    type V = Seq<LogMetaView>;

    closed spec fn view(&self) -> Seq<LogMetaView> {
        meta_views(self.entries@)
    }
}

impl LogMetadataIndex {
    /// An empty index.
    pub fn new() -> (r: Self)
        ensures
            r@.len() == 0,
    {
        LogMetadataIndex { entries: Vec::new() }
    }

    /// Stores `meta` at its path, replacing the entry stored there, if any.
    pub fn insert(&mut self, meta: LogEntryMetadata)
        ensures
            final(self)@ == index_insert(old(self)@, meta@),
    {
        let ghost ov = self@;
        let pc = chars_of(meta.object_path());
        let n = self.entries.len();
        let mut i: usize = 0;
        while i < n
            invariant
                n == self.entries@.len(),
                ov == meta_views(self.entries@),
                ov == old(self)@,
                pc@ == meta@.object_path,
                i <= n,
                forall|j: int| 0 <= j < i ==> (#[trigger] ov[j]).object_path != meta@.object_path,
            decreases n - i,
        {
            let qc = chars_of(self.entries[i].object_path());
            if crate::text::chars_eq(qc.as_slice(), pc.as_slice()) {
                proof {
                    lemma_first_at_path(ov, meta@.object_path, i as int);
                }
                let ghost mv = meta@;
                self.entries.set(i, meta);
                assert(self@ =~= ov.update(i as int, mv));
                return;
            }
            i = i + 1;
        }
        let ghost mv = meta@;
        self.entries.push(meta);
        assert(self@ =~= ov.push(mv));
    }

    /// Removes every entry stored at a path in `paths`.
    pub fn remove_paths(&mut self, paths: &Vec<String>)
        ensures
            final(self)@ == old(self)@.filter(|e: LogMetaView| !string_views(paths@).contains(e.object_path)),
    {
        let ghost ov = self@;
        let mut kept: Vec<LogEntryMetadata> = Vec::new();
        let n = self.entries.len();
        for k in 0..n
            invariant
                n == self.entries@.len(),
                ov == meta_views(self.entries@),
                meta_views(kept@) == ov.take(k as int).filter(|e: LogMetaView| !string_views(paths@).contains(e.object_path)),
        {
            proof {
                reveal(Seq::filter);
                assert(ov.take(k + 1).drop_last() =~= ov.take(k as int));
                assert(ov.take(k + 1).last() == self.entries@[k as int]@);
            }
            let ghost before = kept@;
            if !contains_path(paths, self.entries[k].object_path()) {
                let c = self.entries[k].cloned();
                kept.push(c);
                assert(meta_views(kept@) =~= meta_views(before).push(c@));
            } else {
                assert(meta_views(kept@) =~= meta_views(before));
            }
        }
        assert(ov.take(n as int) =~= ov);
        self.entries = kept;
    }

    /// Removes the entry stored at `path`, if any.
    pub fn remove(&mut self, path: &str)
        ensures
            final(self)@ == old(self)@.filter(|e: LogMetaView| e.object_path != path@),
    {
        let paths = vec![path.to_owned()];
        let ghost ov = self@;
        self.remove_paths(&paths);
        proof {
            assert(string_views(paths@) =~= seq![path@]);
            assert forall|q: Seq<char>| string_views(paths@).contains(q) <==> q == path@ by {
                if q == path@ {
                    assert(string_views(paths@)[0] == q);
                }
            }
            assert((|e: LogMetaView| !string_views(paths@).contains(e.object_path)) =~= (|e: LogMetaView| e.object_path != path@));
        }
    }

    /// Rebuilds metadata from a listing of a server's stored objects (path,
    /// size and modification time of each) and stores what rebuilds in the
    /// index, returning it; objects whose path does not have a log shape
    /// are skipped.
    pub fn adopt_listing(
        &mut self,
        listing: &Vec<(String, u64, i64)>,
        server_id: McpServerId,
        retention_period: i64,
    ) -> (r: Vec<LogEntryMetadata>)
        requires
            forall|i: int| 0 <= i < listing@.len() ==> i64::MIN <= #[trigger] listing@[i].2 + retention_period <= i64::MAX,
        ensures
            meta_views(r@) == rebuilt_all(
                listing@.map_values(|o: (String, u64, i64)| (o.0@, o.1, o.2)),
                server_id,
                retention_period,
            ),
            forall|k: int|
                0 <= k < listing@.len() ==> capture_rebuilds(
                    (#[trigger] listing@[k]).0@,
                    listing@[k].1,
                    listing@[k].2,
                    server_id,
                    retention_period,
                ),
            final(self)@ == index_insert_all(old(self)@, meta_views(r@)),
    {
        let rebuilt = rebuild_listing(listing, server_id, retention_period);
        let ghost rv = meta_views(rebuilt@);
        let n = rebuilt.len();
        for i in 0..n
            invariant
                n == rebuilt@.len(),
                rv == meta_views(rebuilt@),
                self@ == index_insert_all(old(self)@, rv.take(i as int)),
        {
            let m = rebuilt[i].cloned();
            self.insert(m);
            assert(rv.take(i + 1).drop_last() =~= rv.take(i as int));
            assert(rv.take(i + 1).last() == rebuilt@[i as int]@);
        }
        assert(rv.take(n as int) =~= rv);
        rebuilt
    }

    /// The entries of `server_id`, in index order.
    pub fn entries_for_server(&self, server_id: McpServerId) -> (r: Vec<LogEntryMetadata>)
        ensures
            meta_views(r@) == self@.filter(|e: LogMetaView| e.server_id == server_id),
    {
        let ghost ov = self@;
        let mut out: Vec<LogEntryMetadata> = Vec::new();
        let n = self.entries.len();
        for k in 0..n
            invariant
                n == self.entries@.len(),
                ov == meta_views(self.entries@),
                meta_views(out@) == ov.take(k as int).filter(|e: LogMetaView| e.server_id == server_id),
        {
            proof {
                reveal(Seq::filter);
                assert(ov.take(k + 1).drop_last() =~= ov.take(k as int));
                assert(ov.take(k + 1).last() == self.entries@[k as int]@);
            }
            let ghost before = out@;
            if self.entries[k].server_id().same_as(&server_id) {
                let c = self.entries[k].cloned();
                out.push(c);
                assert(meta_views(out@) =~= meta_views(before).push(c@));
            } else {
                assert(meta_views(out@) =~= meta_views(before));
            }
        }
        assert(ov.take(n as int) =~= ov);
        out
    }

    /// The metadata a sweep works on for `server_id`: the index's entries for
    /// the server when it has any (the index is left as it is); otherwise,
    /// once a listing of the server's stored objects is at hand, what rebuilds
    /// from it, adopted into the index; `None` while the index has nothing and
    /// no listing was given, which asks the caller to list the store.
    pub fn collect_server_metadata(
        &mut self,
        server_id: McpServerId,
        listing: Option<&Vec<(String, u64, i64)>>,
        retention_period: i64,
    ) -> (r: Option<Vec<LogEntryMetadata>>)
        requires
            listing matches Some(l) ==> forall|i: int|
                0 <= i < l@.len() ==> i64::MIN <= #[trigger] l@[i].2 + retention_period <= i64::MAX,
        ensures
            ({
                let known = old(self)@.filter(|e: LogMetaView| e.server_id == server_id);
                &&& known.len() > 0 ==> (r matches Some(v) && meta_views(v@) == known
                    && final(self)@ == old(self)@)
                &&& (known.len() == 0 && listing is None) ==> (r is None && final(self)@ == old(self)@)
                &&& (known.len() == 0 && listing is Some) ==> (r matches Some(v) && meta_views(v@)
                    == rebuilt_all(
                    listing->0@.map_values(|o: (String, u64, i64)| (o.0@, o.1, o.2)),
                    server_id,
                    retention_period,
                ) && final(self)@ == index_insert_all(old(self)@, meta_views(v@)))
            }),
    {
        let existing = self.entries_for_server(server_id);
        if existing.len() > 0 {
            return Some(existing);
        }
        match listing {
            None => None,
            Some(l) => Some(self.adopt_listing(l, server_id, retention_period)),
        }
    }
}

} // verus!

verus! {

proof fn lemma_split_concat(a: Seq<char>, b: Seq<char>, sep: char)
    ensures
        split_spec(a + seq![sep] + b, sep) == split_spec(a, sep) + split_spec(b, sep),
    decreases b.len(),
{
    let s = a + seq![sep] + b;
    if b.len() == 0 {
        assert(s.drop_last() =~= a);
        assert(s.last() == sep);
        assert(split_spec(b, sep) =~= seq![Seq::<char>::empty()]);
        assert(split_spec(a, sep).push(Seq::empty()) =~= split_spec(a, sep) + seq![Seq::<char>::empty()]);
    } else {
        let b2 = b.drop_last();
        lemma_split_concat(a, b2, sep);
        lemma_split_nonempty(b2, sep);
        lemma_split_nonempty(a, sep);
        assert(s.drop_last() =~= a + seq![sep] + b2);
        assert(s.last() == b.last());
        let ta = split_spec(a, sep);
        let tb = split_spec(b2, sep);
        if b.last() == sep {
            assert((ta + tb).push(Seq::empty()) =~= ta + tb.push(Seq::empty()));
        } else {
            let t = ta + tb;
            assert(t.last() == tb.last());
            assert(t.update(t.len() - 1, t.last().push(b.last())) =~= ta + tb.update(
                tb.len() - 1,
                tb.last().push(b.last()),
            ));
        }
    }
}

proof fn lemma_split_plain(s: Seq<char>, sep: char)
    requires
        forall|i: int| 0 <= i < s.len() ==> s[i] != sep,
    ensures
        split_spec(s, sep) == seq![s],
    decreases s.len(),
{
    if s.len() > 0 {
        let t = s.drop_last();
        assert forall|i: int| 0 <= i < t.len() implies t[i] != sep by {
            assert(t[i] == s[i]);
        }
        lemma_split_plain(t, sep);
        assert(s.last() != sep);
        assert(t.push(s.last()) =~= s);
        assert(seq![t].update(0, t.push(s.last())) =~= seq![s]);
    } else {
        assert(s =~= Seq::<char>::empty());
    }
}

proof fn lemma_uuid_text_plain(x: u128)
    ensures
        forall|i: int| 0 <= i < uuid_text_spec(x).len() ==> uuid_text_spec(x)[i] != '/',
        uuid_text_spec(x).len() == 36,
{
    let h = crate::ids::hex32_spec(x);
    assert forall|i: int| 0 <= i < 32 implies h[i] != '/' by {
        let n = crate::ids::nibble_spec(x, i);
        let k: u128 = (4 * (31 - i)) as u128;
        assert((x >> k) & 0xf < 16) by (bit_vector);
        assert(n < 16);
    }
    let t = uuid_text_spec(x);
    assert forall|i: int| 0 <= i < t.len() implies t[i] != '/' by {
        if i < 8 {
            assert(t[i] == h[i]);
        } else if i == 8 || i == 13 || i == 18 || i == 23 {
        } else if i < 13 {
            assert(t[i] == h[i - 1]);
        } else if i < 18 {
            assert(t[i] == h[i - 2]);
        } else if i < 23 {
            assert(t[i] == h[i - 3]);
        } else {
            assert(t[i] == h[i - 4]);
        }
    }
}

/// The stored file name of a log entry: its identifier's text and
/// `.stderr`.
pub open spec fn capture_file_name(id: LogEntryId) -> Seq<char> {
    uuid_text_spec(id.0) + ".stderr"@
}

/// The segments of a path that log capture writes.
pub open spec fn capture_segments(tenant: TenantId, server: McpServerId, kind: LogEntryKind, id: LogEntryId) -> Seq<Seq<char>> {
    match kind {
        LogEntryKind::ServerStartup => seq![
            "tool_logs"@,
            uuid_text_spec(tenant.0),
            uuid_text_spec(server.0),
            "startup"@,
            capture_file_name(id),
        ],
        LogEntryKind::ToolCall { call_id } => seq![
            "tool_logs"@,
            uuid_text_spec(tenant.0),
            uuid_text_spec(server.0),
            "call"@,
            uuid_text_spec(call_id.0),
            capture_file_name(id),
        ],
    }
}

/// The metadata that rebuilding `path`, the path of a log captured with
/// identifier `id` and kind `kind`, gives for `server_id`: that identifier,
/// kind and path, with the stored object's size and modification time.
pub open spec fn captured_meta(
    path: Seq<char>,
    kind: LogEntryKind,
    id: LogEntryId,
    server_id: McpServerId,
    size: u64,
    last_modified: i64,
    retention_period: i64,
) -> LogMetaView {
    LogMetaView {
        id,
        server_id,
        kind,
        object_path: path,
        byte_count: size,
        captured_at: last_modified,
        expires_at: (last_modified + retention_period) as i64,
    }
}

/// Whether rebuilding `path` gives back what capture recorded, whenever
/// `path` is a path that log capture writes.
pub open spec fn capture_rebuilds(path: Seq<char>, size: u64, last_modified: i64, server_id: McpServerId, retention_period: i64) -> bool {
    forall|tenant: TenantId, server: McpServerId, kind: LogEntryKind, id: LogEntryId|
        #[trigger] crate::log_capture::object_path_spec(tenant, server, kind, id) == path ==> rebuild_spec(
            path,
            size,
            last_modified,
            server_id,
            retention_period,
        ) == Some(captured_meta(path, kind, id, server_id, size, last_modified, retention_period))
}

/// A path that log capture writes splits at `/` into its segments.
proof fn lemma_capture_path_split(tenant: TenantId, server: McpServerId, kind: LogEntryKind, id: LogEntryId)
    ensures
        split_spec(crate::log_capture::object_path_spec(tenant, server, kind, id), '/') == capture_segments(
            tenant,
            server,
            kind,
            id,
        ),
        capture_file_name(id).len() > 7,
        ".stderr"@.is_suffix_of(capture_file_name(id)),
        capture_file_name(id).take(capture_file_name(id).len() - 7) == uuid_text_spec(id.0),
{
    reveal_strlit("tool_logs/");
    reveal_strlit("/");
    reveal_strlit("startup");
    reveal_strlit("call/");
    reveal_strlit(".stderr");
    reveal_strlit("tool_logs");
    reveal_strlit("call");
    let sep = '/';
    let tl = "tool_logs"@;
    let tt = uuid_text_spec(tenant.0);
    let st = uuid_text_spec(server.0);
    let it = uuid_text_spec(id.0);
    let file = capture_file_name(id);
    lemma_uuid_text_plain(tenant.0);
    lemma_uuid_text_plain(server.0);
    lemma_uuid_text_plain(id.0);
    assert forall|i: int| 0 <= i < file.len() implies file[i] != sep by {
        if i < it.len() {
            assert(file[i] == it[i]);
        }
    }
    assert forall|i: int| 0 <= i < tl.len() implies tl[i] != sep by {}
    lemma_split_plain(tl, sep);
    lemma_split_plain(tt, sep);
    lemma_split_plain(st, sep);
    lemma_split_plain(file, sep);
    let path = crate::log_capture::object_path_spec(tenant, server, kind, id);
    let segs = split_spec(path, sep);
    match kind {
        LogEntryKind::ServerStartup => {
            let sp = "startup"@;
            assert forall|i: int| 0 <= i < sp.len() implies sp[i] != sep by {}
            lemma_split_plain(sp, sep);
            let tail = sp + seq![sep] + file;
            lemma_split_concat(sp, file, sep);
            let mid = st + seq![sep] + tail;
            lemma_split_concat(st, tail, sep);
            let mid2 = tt + seq![sep] + mid;
            lemma_split_concat(tt, mid, sep);
            lemma_split_concat(tl, mid2, sep);
            assert(path =~= tl + seq![sep] + mid2);
            assert(segs =~= capture_segments(tenant, server, kind, id));
        },
        LogEntryKind::ToolCall { call_id } => {
            let cl = "call"@;
            let ct = uuid_text_spec(call_id.0);
            lemma_uuid_text_plain(call_id.0);
            assert forall|i: int| 0 <= i < cl.len() implies cl[i] != sep by {}
            lemma_split_plain(cl, sep);
            lemma_split_plain(ct, sep);
            let t1 = ct + seq![sep] + file;
            lemma_split_concat(ct, file, sep);
            let tail = cl + seq![sep] + t1;
            lemma_split_concat(cl, t1, sep);
            let mid = st + seq![sep] + tail;
            lemma_split_concat(st, tail, sep);
            let mid2 = tt + seq![sep] + mid;
            lemma_split_concat(tt, mid, sep);
            lemma_split_concat(tl, mid2, sep);
            assert(path =~= tl + seq![sep] + mid2);
            assert(segs =~= capture_segments(tenant, server, kind, id));
        },
    }
    assert(".stderr"@.is_suffix_of(file)) by {
        assert(file.subrange(file.len() - 7, file.len() as int) =~= ".stderr"@);
    }
    assert(file.take(file.len() - 7) =~= it);
}

/// Rebuilding the path of a captured log gives back what capture recorded,
/// where the texts of its identifiers parse back to them.
proof fn lemma_rebuild_after_capture(
    tenant: TenantId,
    server: McpServerId,
    kind: LogEntryKind,
    id: LogEntryId,
    server_id: McpServerId,
    size: u64,
    last_modified: i64,
    retention_period: i64,
)
    requires
        uuid_parse_result(uuid_text_spec(id.0)) == Some(id.0),
        kind matches LogEntryKind::ToolCall { call_id } ==> uuid_parse_result(uuid_text_spec(call_id.0)) == Some(
            call_id.0,
        ),
    ensures
        rebuild_spec(
            crate::log_capture::object_path_spec(tenant, server, kind, id),
            size,
            last_modified,
            server_id,
            retention_period,
        ) == Some(
            captured_meta(
                crate::log_capture::object_path_spec(tenant, server, kind, id),
                kind,
                id,
                server_id,
                size,
                last_modified,
                retention_period,
            ),
        ),
{
    reveal_strlit("tool_logs");
    reveal_strlit("call");
    reveal_strlit("startup");
    lemma_capture_path_split(tenant, server, kind, id);
    let segs = capture_segments(tenant, server, kind, id);
    assert(segs.last() == capture_file_name(id));
}

} // verus!
