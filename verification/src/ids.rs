//! Identifiers (UUIDs held as 128-bit integers) and their canonical text
//! form.

use crate::text::{chars_of, string_from_chars};
use vstd::prelude::*;

verus! {

/// Lowercase hexadecimal digit for a value below sixteen.
pub open spec fn hex_digit_spec(n: u128) -> char {
    if n < 10 {
        ((48 + n) as u32) as char
    } else {
        ((87 + n) as u32) as char
    }
}

/// The `i`-th hexadecimal digit (most significant first) of a UUID.
pub open spec fn nibble_spec(x: u128, i: int) -> u128 {
    (x >> ((4 * (31 - i)) as u128)) & 0xf
}

/// The thirty-two lowercase hexadecimal digits of a UUID.
pub open spec fn hex32_spec(x: u128) -> Seq<char> {
    Seq::new(32, |i: int| hex_digit_spec(nibble_spec(x, i)))
}

/// Hyphenated lowercase form `xxxxxxxx-xxxx-xxxx-xxxx-xxxxxxxxxxxx`, which is
/// how `uuid::Uuid` displays itself.
pub open spec fn uuid_text_spec(x: u128) -> Seq<char> {
    let h = hex32_spec(x);
    h.subrange(0, 8) + seq!['-'] + h.subrange(8, 12) + seq!['-'] + h.subrange(12, 16) + seq![
        '-',
    ] + h.subrange(16, 20) + seq!['-'] + h.subrange(20, 32)
}

fn hex_digit(n: u128) -> (c: char)
    requires
        n < 16,
    ensures
        c == hex_digit_spec(n),
{
    if n < 10 {
        let b: u8 = (48 + n) as u8;
        b as char
    } else {
        let b: u8 = (87 + n) as u8;
        b as char
    }
}

/// Writes the hyphenated lowercase form of a UUID.
pub fn uuid_text_chars(x: u128) -> (r: Vec<char>)
    ensures
        r@ == uuid_text_spec(x),
{
    let mut r: Vec<char> = Vec::new();
    let ghost h = hex32_spec(x);
    let mut i: u128 = 0;
    while i < 32
        invariant
            i <= 32,
            h == hex32_spec(x),
            r@ == (if i <= 8 {
                h.subrange(0, i as int)
            } else if i <= 12 {
                h.subrange(0, 8) + seq!['-'] + h.subrange(8, i as int)
            } else if i <= 16 {
                h.subrange(0, 8) + seq!['-'] + h.subrange(8, 12) + seq!['-'] + h.subrange(
                    12,
                    i as int,
                )
            } else if i <= 20 {
                h.subrange(0, 8) + seq!['-'] + h.subrange(8, 12) + seq!['-'] + h.subrange(12, 16)
                    + seq!['-'] + h.subrange(16, i as int)
            } else {
                h.subrange(0, 8) + seq!['-'] + h.subrange(8, 12) + seq!['-'] + h.subrange(12, 16)
                    + seq!['-'] + h.subrange(16, 20) + seq!['-'] + h.subrange(20, i as int)
            }),
        decreases 32 - i,
    {
        if i == 8 || i == 12 || i == 16 || i == 20 {
            r.push('-');
        }
        let sh: u128 = 4 * (31 - i);
        let n: u128 = (x >> sh) & 0xf;
        assert(n < 16) by (bit_vector)
            requires
                n == (x >> sh) & 0xf,
        ;
        let c = hex_digit(n);
        assert(c == h[i as int]);
        r.push(c);
        proof {
            let ii = i as int;
            if i < 8 {
                assert(r@ =~= h.subrange(0, ii + 1));
            } else if i < 12 {
                assert(r@ =~= h.subrange(0, 8) + seq!['-'] + h.subrange(8, ii + 1));
            } else if i < 16 {
                assert(r@ =~= h.subrange(0, 8) + seq!['-'] + h.subrange(8, 12) + seq!['-']
                    + h.subrange(12, ii + 1));
            } else if i < 20 {
                assert(r@ =~= h.subrange(0, 8) + seq!['-'] + h.subrange(8, 12) + seq!['-']
                    + h.subrange(12, 16) + seq!['-'] + h.subrange(16, ii + 1));
            } else {
                assert(r@ =~= h.subrange(0, 8) + seq!['-'] + h.subrange(8, 12) + seq!['-']
                    + h.subrange(12, 16) + seq!['-'] + h.subrange(16, 20) + seq!['-']
                    + h.subrange(20, ii + 1));
            }
        }
        i = i + 1;
    }
    r
}

/// Writes the hyphenated lowercase form of a UUID as a string.
pub fn uuid_text(x: u128) -> (r: String)
    ensures
        r@ == uuid_text_spec(x),
{
    let v = uuid_text_chars(x);
    string_from_chars(v.as_slice())
}

/// Version and variant bits of a random (version 4, RFC 4122 variant) UUID.
pub open spec fn is_v4_uuid(x: u128) -> bool {
    x & 0xF000C000000000000000u128 == 0x40008000000000000000u128
}

/// Draws a fresh random identifier through `uuid::Uuid::new_v4`.
///
/// Trusted: the result is random; only its version and variant bits, which
/// `new_v4` always sets, are claimed.
#[verifier::external_body]
pub(crate) fn random_uuid() -> (r: u128)
    ensures
        is_v4_uuid(r),
{
    uuid::Uuid::new_v4().as_u128()
}

/// What `uuid::Uuid::parse_str` returns for a text, as a 128-bit value.
pub uninterp spec fn uuid_parse_result(text: Seq<char>) -> Option<u128>;

/// Parses a UUID through `uuid::Uuid::parse_str`.
///
/// Trusted: the result is the named parse result of the text; the one fact
/// claimed beyond that is that the hyphenated lowercase form of a value
/// parses back to that value, as the crate documents for its formats.
#[verifier::external_body]
pub(crate) fn parse_uuid(text: &str) -> (r: Option<u128>)
    ensures
        r == uuid_parse_result(text@),
        forall|x: u128| text@ == uuid_text_spec(x) ==> r == Some(x),
{
    uuid::Uuid::parse_str(text).ok().map(|u| u.as_u128())
}

/// Unique identifier for an MCP server registration.
#[derive(Debug, Clone, Copy, PartialEq, Eq, Hash)]
pub struct McpServerId(pub u128);

/// Unique identifier for a catalog entry.
#[derive(Debug, Clone, Copy, PartialEq, Eq, Hash)]
pub struct CatalogEntryId(pub u128);

/// Unique identifier for a tool call invocation.
#[derive(Debug, Clone, Copy, PartialEq, Eq, Hash)]
pub struct ToolCallId(pub u128);

/// Unique identifier for a captured log entry.
#[derive(Debug, Clone, Copy, PartialEq, Eq, Hash)]
pub struct LogEntryId(pub u128);

/// Identifier of the tenant that owns a request.
#[derive(Debug, Clone, Copy, PartialEq, Eq, Hash)]
pub struct TenantId(pub u128);

/// Identifier of a task that a tool call belongs to.
#[derive(Debug, Clone, Copy, PartialEq, Eq, Hash)]
pub struct TaskId(pub u128);

/// Identifier of a conversation that a tool call belongs to.
#[derive(Debug, Clone, Copy, PartialEq, Eq, Hash)]
pub struct ConversationId(pub u128);

} // verus!

verus! {

impl McpServerId {
    /// The wrapped UUID value.
    pub open spec fn value(self) -> u128 {
        self.0
    }

    /// Creates a new random MCP server identifier.
    pub fn new() -> (r: Self)
        ensures
            is_v4_uuid(r.value()),
    {
        McpServerId(random_uuid())
    }

    /// Creates a MCP server identifier from an existing UUID value.
    pub fn from_uuid(uuid: u128) -> (r: Self)
        ensures
            r.value() == uuid,
    {
        McpServerId(uuid)
    }

    /// Returns the wrapped UUID value.
    pub fn into_inner(self) -> (r: u128)
        ensures
            r == self.value(),
    {
        self.0
    }

    /// Returns the hyphenated lowercase text form, as the identifier displays.
    pub fn to_text(&self) -> (r: String)
        ensures
            r@ == uuid_text_spec(self.value()),
    {
        uuid_text(self.0)
    }

    /// Decides equality of two identifiers.
    pub fn same_as(&self, other: &Self) -> (r: bool)
        ensures
            r == (self.value() == other.value()),
    {
        self.0 == other.0
    }
}

impl CatalogEntryId {
    /// The wrapped UUID value.
    pub open spec fn value(self) -> u128 {
        self.0
    }

    /// Creates a new random catalog entry identifier.
    pub fn new() -> (r: Self)
        ensures
            is_v4_uuid(r.value()),
    {
        CatalogEntryId(random_uuid())
    }

    /// Creates a catalog entry identifier from an existing UUID value.
    pub fn from_uuid(uuid: u128) -> (r: Self)
        ensures
            r.value() == uuid,
    {
        CatalogEntryId(uuid)
    }

    /// Returns the wrapped UUID value.
    pub fn into_inner(self) -> (r: u128)
        ensures
            r == self.value(),
    {
        self.0
    }

    /// Returns the hyphenated lowercase text form, as the identifier displays.
    pub fn to_text(&self) -> (r: String)
        ensures
            r@ == uuid_text_spec(self.value()),
    {
        uuid_text(self.0)
    }

    /// Decides equality of two identifiers.
    pub fn same_as(&self, other: &Self) -> (r: bool)
        ensures
            r == (self.value() == other.value()),
    {
        self.0 == other.0
    }
}

impl ToolCallId {
    /// The wrapped UUID value.
    pub open spec fn value(self) -> u128 {
        self.0
    }

    /// Creates a new random tool call identifier.
    pub fn new() -> (r: Self)
        ensures
            is_v4_uuid(r.value()),
    {
        ToolCallId(random_uuid())
    }

    /// Creates a tool call identifier from an existing UUID value.
    pub fn from_uuid(uuid: u128) -> (r: Self)
        ensures
            r.value() == uuid,
    {
        ToolCallId(uuid)
    }

    /// Returns the wrapped UUID value.
    pub fn into_inner(self) -> (r: u128)
        ensures
            r == self.value(),
    {
        self.0
    }

    /// Returns the hyphenated lowercase text form, as the identifier displays.
    pub fn to_text(&self) -> (r: String)
        ensures
            r@ == uuid_text_spec(self.value()),
    {
        uuid_text(self.0)
    }

    /// Decides equality of two identifiers.
    pub fn same_as(&self, other: &Self) -> (r: bool)
        ensures
            r == (self.value() == other.value()),
    {
        self.0 == other.0
    }
}

impl LogEntryId {
    /// The wrapped UUID value.
    pub open spec fn value(self) -> u128 {
        self.0
    }

    /// Creates a new random log entry identifier.
    pub fn new() -> (r: Self)
        ensures
            is_v4_uuid(r.value()),
    {
        LogEntryId(random_uuid())
    }

    /// Creates a log entry identifier from an existing UUID value.
    pub fn from_uuid(uuid: u128) -> (r: Self)
        ensures
            r.value() == uuid,
    {
        LogEntryId(uuid)
    }

    /// Returns the wrapped UUID value.
    pub fn into_inner(self) -> (r: u128)
        ensures
            r == self.value(),
    {
        self.0
    }

    /// Returns the hyphenated lowercase text form, as the identifier displays.
    pub fn to_text(&self) -> (r: String)
        ensures
            r@ == uuid_text_spec(self.value()),
    {
        uuid_text(self.0)
    }

    /// Decides equality of two identifiers.
    pub fn same_as(&self, other: &Self) -> (r: bool)
        ensures
            r == (self.value() == other.value()),
    {
        self.0 == other.0
    }
}

impl TenantId {
    /// The wrapped UUID value.
    pub open spec fn value(self) -> u128 {
        self.0
    }

    /// Creates a new random tenant identifier.
    pub fn new() -> (r: Self)
        ensures
            is_v4_uuid(r.value()),
    {
        TenantId(random_uuid())
    }

    /// Creates a tenant identifier from an existing UUID value.
    pub fn from_uuid(uuid: u128) -> (r: Self)
        ensures
            r.value() == uuid,
    {
        TenantId(uuid)
    }

    /// Returns the wrapped UUID value.
    pub fn into_inner(self) -> (r: u128)
        ensures
            r == self.value(),
    {
        self.0
    }

    /// Returns the hyphenated lowercase text form, as the identifier displays.
    pub fn to_text(&self) -> (r: String)
        ensures
            r@ == uuid_text_spec(self.value()),
    {
        uuid_text(self.0)
    }

    /// Decides equality of two identifiers.
    pub fn same_as(&self, other: &Self) -> (r: bool)
        ensures
            r == (self.value() == other.value()),
    {
        self.0 == other.0
    }
}

} // verus!

verus! {

/// Maximum length for an MCP server name, matching `VARCHAR(100)`.
pub const MAX_SERVER_NAME_LENGTH: usize = 100;

/// Characters allowed in a server name: `[a-z0-9_]`.
pub open spec fn is_server_name_char(c: char) -> bool {
    ('a' <= c && c <= 'z') || ('0' <= c && c <= '9') || c == '_'
}

/// A server name as stored: non-empty, `[a-z0-9_]` only, at most 100
/// characters.
pub open spec fn valid_server_name(s: Seq<char>) -> bool {
    &&& s.len() > 0
    &&& s.len() <= MAX_SERVER_NAME_LENGTH
    &&& forall|i: int| 0 <= i < s.len() ==> is_server_name_char(#[trigger] s[i])
}

/// The normalized form of a candidate server name: trimmed, then ASCII
/// lowercased.
pub open spec fn normalize_server_name(s: Seq<char>) -> Seq<char> {
    crate::text::ascii_lower_spec(crate::text::trim_spec(s))
}

/// Validated MCP server name.
#[derive(Debug, PartialEq, Eq, Hash)]
pub struct McpServerName(String);

impl View for McpServerName {
    type V = Seq<char>;

    closed spec fn view(&self) -> Seq<char> {
        self.0@
    }
}

impl McpServerName {
    #[verifier::type_invariant]
    closed spec fn inv(self) -> bool {
        valid_server_name(self.0@)
    }

    /// Creates a validated MCP server name.
    ///
    /// The input is trimmed and lowercased. Only characters in `[a-z0-9_]`
    /// are accepted.
    pub fn new(value: &str) -> (r: Result<Self, crate::error::ToolRegistryDomainError>)
        ensures
            ({
                let n = normalize_server_name(value@);
                match r {
                    Ok(name) => valid_server_name(n) && name@ == n,
                    Err(crate::error::ToolRegistryDomainError::EmptyServerName) => n.len() == 0,
                    Err(crate::error::ToolRegistryDomainError::InvalidServerName(s)) => n.len() > 0
                        && s@ == n && exists|i: int|
                        0 <= i < n.len() && !is_server_name_char(#[trigger] n[i]),
                    Err(crate::error::ToolRegistryDomainError::ServerNameTooLong(s)) => s@ == n
                        && n.len() > MAX_SERVER_NAME_LENGTH && forall|i: int|
                        0 <= i < n.len() ==> is_server_name_char(#[trigger] n[i]),
                    Err(_) => false,
                }
            }),
    {
        let raw = chars_of(value);
        let trimmed = crate::text::trim_chars(raw.as_slice());
        let normalized = crate::text::ascii_lower_chars(trimmed.as_slice());
        if normalized.len() == 0 {
            return Err(crate::error::ToolRegistryDomainError::EmptyServerName);
        }
        let n = normalized.len();
        let mut i: usize = 0;
        while i < n
            invariant
                n == normalized@.len(),
                normalized@ == normalize_server_name(value@),
                i <= n,
                forall|k: int| 0 <= k < i ==> is_server_name_char(#[trigger] normalized@[k]),
            decreases n - i,
        {
            let c = normalized[i];
            if !(('a' <= c && c <= 'z') || ('0' <= c && c <= '9') || c == '_') {
                assert(normalized@ == normalize_server_name(value@));
                assert(!is_server_name_char(normalize_server_name(value@)[i as int]));
                return Err(
                    crate::error::ToolRegistryDomainError::InvalidServerName(
                        string_from_chars(normalized.as_slice()),
                    ),
                );
            }
            i = i + 1;
        }
        if n > MAX_SERVER_NAME_LENGTH {
            return Err(
                crate::error::ToolRegistryDomainError::ServerNameTooLong(
                    string_from_chars(normalized.as_slice()),
                ),
            );
        }
        Ok(McpServerName(string_from_chars(normalized.as_slice())))
    }

    /// Returns the MCP server name as a string slice.
    pub fn as_str(&self) -> (r: &str)
        ensures
            r@ == self@,
            valid_server_name(r@),
    {
        proof {
            use_type_invariant(self);
        }
        self.0.as_str()
    }

    /// A copy of this name.
    pub fn cloned(&self) -> (r: Self)
        ensures
            r@ == self@,
    {
        proof {
            use_type_invariant(self);
        }
        McpServerName(self.0.clone())
    }

    /// Decides equality of two names.
    pub fn same_as(&self, other: &Self) -> (r: bool)
        ensures
            r == (self@ == other@),
    {
        self.0 == other.0
    }
}

} // verus!

verus! {

impl TaskId {
    /// The wrapped UUID value.
    pub open spec fn value(self) -> u128 {
        self.0
    }

    /// Creates a new random task identifier.
    pub fn new() -> (r: Self)
        ensures
            is_v4_uuid(r.value()),
    {
        TaskId(random_uuid())
    }

    /// Creates a task identifier from an existing UUID value.
    pub fn from_uuid(uuid: u128) -> (r: Self)
        ensures
            r.value() == uuid,
    {
        TaskId(uuid)
    }

    /// Returns the wrapped UUID value.
    pub fn into_inner(self) -> (r: u128)
        ensures
            r == self.value(),
    {
        self.0
    }
}

} // verus!

verus! {

impl ConversationId {
    /// The wrapped UUID value.
    pub open spec fn value(self) -> u128 {
        self.0
    }

    /// Creates a new random conversation identifier.
    pub fn new() -> (r: Self)
        ensures
            is_v4_uuid(r.value()),
    {
        ConversationId(random_uuid())
    }

    /// Creates a conversation identifier from an existing UUID value.
    pub fn from_uuid(uuid: u128) -> (r: Self)
        ensures
            r.value() == uuid,
    {
        ConversationId(uuid)
    }

    /// Returns the wrapped UUID value.
    pub fn into_inner(self) -> (r: u128)
        ensures
            r == self.value(),
    {
        self.0
    }
}

} // verus!
