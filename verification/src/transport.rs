//! MCP server transport configuration value objects.

use crate::assoc::{keys_of, keys_sorted, last_value, sorted_from_pairs};
use crate::error::ToolRegistryDomainError;
use crate::text::{chars_of, string_from_chars, trim_spec};
use vstd::prelude::*;

verus! {

/// Abstract content of a STDIO transport configuration.
pub struct StdioTransportView {
    /// Executable command, trimmed and non-empty.
    pub command: Seq<char>,
    /// Command-line arguments.
    pub args: Seq<Seq<char>>,
    /// Environment variables in ascending key order, keys unique.
    pub env: Seq<(Seq<char>, Seq<char>)>,
    /// Optional working directory, trimmed and non-empty.
    pub working_directory: Option<Seq<char>>,
}

/// View of a vector of strings.
pub open spec fn strings_view(v: Seq<String>) -> Seq<Seq<char>> {
    v.map_values(|s: String| s@)
}

/// View of a vector of string pairs.
pub open spec fn pairs_view(v: Seq<(String, String)>) -> Seq<(Seq<char>, Seq<char>)> {
    v.map_values(|p: (String, String)| (p.0@, p.1@))
}

/// Transport settings for an MCP server hosted over STDIO.
#[derive(Debug, PartialEq, Eq)]
pub struct StdioTransportConfig {
    command: String,
    args: Vec<String>,
    env: Vec<(String, String)>,
    working_directory: Option<String>,
}

impl View for StdioTransportConfig {
    type V = StdioTransportView;

    closed spec fn view(&self) -> StdioTransportView {
        StdioTransportView {
            command: self.command@,
            args: strings_view(self.args@),
            env: pairs_view(self.env@),
            working_directory: crate::health::opt_view(self.working_directory),
        }
    }
}

impl StdioTransportConfig {
    #[verifier::type_invariant]
    closed spec fn inv(self) -> bool {
        &&& self.command@.len() > 0
        &&& keys_sorted(keys_of(self.env@))
    }

    /// The environment as an association list of strings (ascending keys).
    pub closed spec fn env_pairs(&self) -> Seq<(String, String)> {
        self.env@
    }

    /// Creates a new STDIO transport configuration from a trimmed command.
    pub fn new(command: &str) -> (r: Result<Self, ToolRegistryDomainError>)
        ensures
            match r {
                Ok(c) => trim_spec(command@).len() > 0 && c@ == (StdioTransportView {
                    command: trim_spec(command@),
                    args: Seq::empty(),
                    env: Seq::empty(),
                    working_directory: None,
                }),
                Err(e) => trim_spec(command@).len() == 0 && e
                    == ToolRegistryDomainError::EmptyStdioCommand,
            },
    {
        let raw = chars_of(command);
        let normalized = crate::text::trim_chars(raw.as_slice());
        if normalized.len() == 0 {
            return Err(ToolRegistryDomainError::EmptyStdioCommand);
        }
        let r = StdioTransportConfig {
            command: string_from_chars(normalized.as_slice()),
            args: Vec::new(),
            env: Vec::new(),
            working_directory: None,
        };
        assert(strings_view(r.args@) =~= Seq::empty());
        assert(pairs_view(r.env@) =~= Seq::empty());
        assert(keys_of(r.env@) =~= Seq::empty());
        Ok(r)
    }

    /// Appends command-line arguments after the ones already set.
    pub fn with_args(self, values: Vec<String>) -> (r: Self)
        ensures
            r@ == (StdioTransportView { args: self@.args + strings_view(values@), ..self@ }),
    {
        proof {
            use_type_invariant(&self);
        }
        let StdioTransportConfig { command, args, env, working_directory } = self;
        let ghost before = args@;
        let mut args = args;
        let mut more = values;
        let ghost added = more@;
        args.append(&mut more);
        assert(strings_view(args@) =~= strings_view(before) + strings_view(added));
        StdioTransportConfig { command, args, env, working_directory }
    }

    /// Replaces the process environment variables; a later pair replaces
    /// the value of an earlier pair with the same key, and the variables are
    /// kept in ascending key order.
    pub fn with_env(self, values: Vec<(String, String)>) -> (r: Self)
        ensures
            r@.command == self@.command,
            r@.args == self@.args,
            r@.working_directory == self@.working_directory,
            keys_sorted(keys_of(r.env_pairs())),
            r@.env == pairs_view(r.env_pairs()),
            forall|k: Seq<char>| #[trigger] last_value(r.env_pairs(), k) == last_value(values@, k),
    {
        proof {
            use_type_invariant(&self);
        }
        let env = sorted_from_pairs(values);
        let StdioTransportConfig { command, args, env: _, working_directory } = self;
        StdioTransportConfig { command, args, env, working_directory }
    }

    /// Sets an explicit working directory, trimmed; a blank value is refused.
    pub fn with_working_directory(self, value: &str) -> (r: Result<Self, ToolRegistryDomainError>)
        ensures
            match r {
                Ok(c) => trim_spec(value@).len() > 0 && c@ == (StdioTransportView {
                    working_directory: Some(trim_spec(value@)),
                    ..self@
                }),
                Err(e) => trim_spec(value@).len() == 0 && e
                    == ToolRegistryDomainError::EmptyWorkingDirectory,
            },
    {
        proof {
            use_type_invariant(&self);
        }
        let raw = chars_of(value);
        let normalized = crate::text::trim_chars(raw.as_slice());
        if normalized.len() == 0 {
            return Err(ToolRegistryDomainError::EmptyWorkingDirectory);
        }
        let StdioTransportConfig { command, args, env, working_directory: _ } = self;
        Ok(
            StdioTransportConfig {
                command,
                args,
                env,
                working_directory: Some(string_from_chars(normalized.as_slice())),
            },
        )
    }

    /// Returns the executable command.
    pub fn command(&self) -> (r: &str)
        ensures
            r@ == self@.command,
            r@.len() > 0,
    {
        proof {
            use_type_invariant(self);
        }
        self.command.as_str()
    }

    /// Returns command-line arguments.
    pub fn args(&self) -> (r: &[String])
        ensures
            strings_view(r@) == self@.args,
    {
        self.args.as_slice()
    }

    /// Returns environment variables in ascending key order.
    pub fn env(&self) -> (r: &[(String, String)])
        ensures
            pairs_view(r@) == self@.env,
            r@ == self.env_pairs(),
            keys_sorted(keys_of(r@)),
    {
        proof {
            use_type_invariant(self);
        }
        self.env.as_slice()
    }

    /// Returns the optional working directory.
    pub fn working_directory(&self) -> (r: Option<&str>)
        ensures
            match r {
                Some(w) => self@.working_directory == Some(w@),
                None => self@.working_directory is None,
            },
    {
        match &self.working_directory {
            Some(w) => Some(w.as_str()),
            None => None,
        }
    }
}

/// Whether `s` starts with `http://` or `https://`.
pub open spec fn has_http_prefix(s: Seq<char>) -> bool {
    ||| (s.len() >= 7 && s.subrange(0, 7) == "http://"@)
    ||| (s.len() >= 8 && s.subrange(0, 8) == "https://"@)
}

/// Transport settings for an MCP server hosted over HTTP+SSE.
#[derive(Debug, PartialEq, Eq)]
pub struct HttpSseTransportConfig {
    base_url: String,
}

impl View for HttpSseTransportConfig {
    type V = Seq<char>;

    closed spec fn view(&self) -> Seq<char> {
        self.base_url@
    }
}

impl HttpSseTransportConfig {
    #[verifier::type_invariant]
    closed spec fn inv(self) -> bool {
        self.base_url@.len() > 0 && has_http_prefix(self.base_url@)
    }

    /// Creates a new HTTP+SSE transport configuration from a trimmed URL
    /// that starts with `http://` or `https://`.
    pub fn new(base_url: &str) -> (r: Result<Self, ToolRegistryDomainError>)
        ensures
            ({
                let n = trim_spec(base_url@);
                match r {
                    Ok(c) => n.len() > 0 && has_http_prefix(n) && c@ == n,
                    Err(ToolRegistryDomainError::EmptyHttpSseBaseUrl) => n.len() == 0,
                    Err(ToolRegistryDomainError::InvalidHttpSseBaseUrl(s)) => n.len() > 0
                        && !has_http_prefix(n) && s@ == n,
                    Err(_) => false,
                }
            }),
    {
        let raw = chars_of(base_url);
        let normalized = crate::text::trim_chars(raw.as_slice());
        if normalized.len() == 0 {
            return Err(ToolRegistryDomainError::EmptyHttpSseBaseUrl);
        }
        let http = chars_of("http://");
        let https = chars_of("https://");
        proof {
            reveal_strlit("http://");
            reveal_strlit("https://");
        }
        let has_valid_prefix = crate::text::chars_starts_with(normalized.as_slice(), http.as_slice())
            || crate::text::chars_starts_with(normalized.as_slice(), https.as_slice());
        if !has_valid_prefix {
            return Err(
                ToolRegistryDomainError::InvalidHttpSseBaseUrl(
                    string_from_chars(normalized.as_slice()),
                ),
            );
        }
        Ok(HttpSseTransportConfig { base_url: string_from_chars(normalized.as_slice()) })
    }

    /// Returns the base URL.
    pub fn base_url(&self) -> (r: &str)
        ensures
            r@ == self@,
            has_http_prefix(r@),
    {
        proof {
            use_type_invariant(self);
        }
        self.base_url.as_str()
    }
}

/// Abstract content of a transport.
pub enum TransportView {
    /// STDIO transport.
    Stdio(StdioTransportView),
    /// HTTP+SSE transport with its base URL.
    HttpSse(Seq<char>),
}

/// Supported MCP transport configuration variants.
#[derive(Debug, PartialEq, Eq)]
pub enum McpTransport {
    /// MCP over local process STDIO.
    Stdio(StdioTransportConfig),
    /// MCP over HTTP+SSE.
    HttpSse(HttpSseTransportConfig),
}

impl View for McpTransport {
    type V = TransportView;

    open spec fn view(&self) -> TransportView {
        match self {
            McpTransport::Stdio(c) => TransportView::Stdio(c@),
            McpTransport::HttpSse(c) => TransportView::HttpSse(c@),
        }
    }
}

impl McpTransport {
    /// Creates a `stdio` transport.
    pub fn stdio(command: &str) -> (r: Result<Self, ToolRegistryDomainError>)
        ensures
            match r {
                Ok(t) => trim_spec(command@).len() > 0 && t@ == TransportView::Stdio(
                    StdioTransportView {
                        command: trim_spec(command@),
                        args: Seq::empty(),
                        env: Seq::empty(),
                        working_directory: None,
                    },
                ),
                Err(e) => trim_spec(command@).len() == 0 && e
                    == ToolRegistryDomainError::EmptyStdioCommand,
            },
    {
        match StdioTransportConfig::new(command) {
            Ok(c) => Ok(McpTransport::Stdio(c)),
            Err(e) => Err(e),
        }
    }

    /// Creates an `http_sse` transport.
    pub fn http_sse(base_url: &str) -> (r: Result<Self, ToolRegistryDomainError>)
        ensures
            ({
                let n = trim_spec(base_url@);
                match r {
                    Ok(t) => n.len() > 0 && has_http_prefix(n) && t@ == TransportView::HttpSse(n),
                    Err(ToolRegistryDomainError::EmptyHttpSseBaseUrl) => n.len() == 0,
                    Err(ToolRegistryDomainError::InvalidHttpSseBaseUrl(s)) => n.len() > 0
                        && !has_http_prefix(n) && s@ == n,
                    Err(_) => false,
                }
            }),
    {
        match HttpSseTransportConfig::new(base_url) {
            Ok(c) => Ok(McpTransport::HttpSse(c)),
            Err(e) => Err(e),
        }
    }
}

fn clone_strings(v: &Vec<String>) -> (r: Vec<String>)
    ensures
        strings_view(r@) == strings_view(v@),
{
    let mut out: Vec<String> = Vec::new();
    let n = v.len();
    for i in 0..n
        invariant
            n == v@.len(),
            strings_view(out@) == strings_view(v@.take(i as int)),
    {
        let ghost before = out@;
        out.push(v[i].clone());
        assert(strings_view(out@) =~= strings_view(before).push(v@[i as int]@));
        assert(v@.take(i + 1) =~= v@.take(i as int).push(v@[i as int]));
        assert(strings_view(v@.take(i + 1)) =~= strings_view(v@.take(i as int)).push(v@[i as int]@));
    }
    assert(v@.take(n as int) =~= v@);
    out
}

fn clone_pairs(v: &Vec<(String, String)>) -> (r: Vec<(String, String)>)
    ensures
        pairs_view(r@) == pairs_view(v@),
        keys_of(r@) == keys_of(v@),
{
    let mut out: Vec<(String, String)> = Vec::new();
    let n = v.len();
    for i in 0..n
        invariant
            n == v@.len(),
            pairs_view(out@) == pairs_view(v@.take(i as int)),
            keys_of(out@) == keys_of(v@.take(i as int)),
    {
        let ghost before = out@;
        let p = (v[i].0.clone(), v[i].1.clone());
        out.push(p);
        assert(pairs_view(out@) =~= pairs_view(before).push((v@[i as int].0@, v@[i as int].1@)));
        assert(keys_of(out@) =~= keys_of(before).push(v@[i as int].0@));
        assert(v@.take(i + 1) =~= v@.take(i as int).push(v@[i as int]));
        assert(pairs_view(v@.take(i + 1)) =~= pairs_view(v@.take(i as int)).push((v@[i as int].0@, v@[i as int].1@)));
        assert(keys_of(v@.take(i + 1)) =~= keys_of(v@.take(i as int)).push(v@[i as int].0@));
    }
    assert(v@.take(n as int) =~= v@);
    out
}

impl StdioTransportConfig {
    /// A deep copy of this configuration.
    pub fn cloned(&self) -> (r: Self)
        ensures
            r@ == self@,
    {
        proof {
            use_type_invariant(self);
        }
        let working_directory = match &self.working_directory {
            Some(w) => Some(w.clone()),
            None => None,
        };
        StdioTransportConfig {
            command: self.command.clone(),
            args: clone_strings(&self.args),
            env: clone_pairs(&self.env),
            working_directory,
        }
    }
}

impl HttpSseTransportConfig {
    /// A deep copy of this configuration.
    pub fn cloned(&self) -> (r: Self)
        ensures
            r@ == self@,
    {
        proof {
            use_type_invariant(self);
        }
        HttpSseTransportConfig { base_url: self.base_url.clone() }
    }
}

impl McpTransport {
    /// A deep copy of this transport.
    pub fn cloned(&self) -> (r: Self)
        ensures
            r@ == self@,
    {
        match self {
            McpTransport::Stdio(c) => McpTransport::Stdio(c.cloned()),
            McpTransport::HttpSse(c) => McpTransport::HttpSse(c.cloned()),
        }
    }
}

} // verus!
