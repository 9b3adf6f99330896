# tool_registry

The tool plane of an agent orchestration platform: a registry of MCP
servers, their lifecycle (register, start, stop, health), a per-tenant
catalog of the tools they expose, the routing of tool calls through
validation and governance, audit records with redaction, and retention of
the stderr that servers and calls produce.

## Layout

- `src/` is the library, written in Verus. Every function carries a
  contract and is proved against it. Values that come from outside (times,
  UUIDs, JSON documents, object-store listings) enter as plain values:
  microseconds since the epoch, 128-bit identifiers, the library's own
  JSON value type.
  - `ids`, `text`, `json`, `health`, `server`, `transport`, `tool`:
    identifiers, names and value objects with their normal forms.
  - `registry`, `catalog`, `tenants`, `runtime`: in-memory states of the
    server registry, tool catalogs and host, with the laws that relate
    their operations.
  - `discovery`, `call_flow`, `discovery_flow`: the decisions of routing
    a tool call and of discovering a server's tools, and both as state
    machines over port answers.
  - `lifecycle`, `lifecycle_flow`: lifecycle decisions, and a start, stop
    or health refresh as a state machine with compensation.
  - `governance`, `redact`, `summary`, `validation`: policy decisions,
    audit redaction and the parameter checks against input schemas.
  - `log_capture`, `log_store`, `sweep_flow`, `lock_key`: stderr capture
    metadata, retention sweeps (the plan, and its deletions as a state
    machine) and the store's advisory lock key.
  - `rows`, `catalog_rows`: records as a relational store keeps them, and
    the reading of store failures.
- `app/` is ordinary Rust around the library: async ports and adapters
  (object store, in-memory adapters behind locks, governance hooks) and
  the services that perform port calls and feed the answers to the
  library's state machines.
  The relational adapters (`PostgresToolCatalog`,
  `PostgresMcpServerRegistry` and the `NewLogMetadataRow` record) are not
  here: they are diesel code over a connection pool, and diesel is not a
  dependency of this crate. What they decide stands in `src/` and waits for
  such an adapter to call it: the row conversions of `rows` and
  `catalog_rows`, the reading of a failed sync
  (`duplicate_entry_from_counts`, `map_sync_rows_error`) and the
  per-tenant advisory lock key (`advisory_lock_key`).
- `tests/` exercises the library from outside.
