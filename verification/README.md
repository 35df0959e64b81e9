# cortexos

The service core of CortexOS as a Verus-verified library.

- `src/` — the verified library. Each public function carries a contract
  over mathematical models (`Seq`, `Set`, spec functions), and the laws of
  the library are public proof functions.
  - `base` — error taxonomy and canonical error responses, identifiers,
    shared types, clock access.
  - `auth` — password hashing and verification, login, session and
    password-change decisions.
  - `config` — configuration defaults, validation and layering of file and
    environment values.
  - `ai` — AI errors and types, the stub adapter, adapter routing, provider
    rows and chat history rows.
  - `admin` — health aggregation, the metric ring buffer, the collector
    policy, diagnostic export and redaction, safe mode, crash, session,
    filesystem-check and factory-reset decisions.
  - `api` — API errors, bearer tokens, CORS, request logs, the bus
    vocabulary, WebSocket sessions and frame handling, route decisions.
  - `db` — database errors and migration planning.
  - `text` — verified string helpers shared by the modules.
- `tests/` — tests run against the compiled library.
- `app/` — the service layer around the library: SQLite persistence, async
  service traits, the command bus, configuration loading and serde forms.
  It holds no decision of its own; it performs I/O and calls the library.
