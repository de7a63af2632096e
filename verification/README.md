# zeptodo

A minimalist, self-hostable, single-user to-do web application with a REST
API, written in Rust and verified with Verus.

## Layout

- `src/` — the verified library. Every decision the server makes lives here
  with a `requires`/`ensures` contract: task statuses and reordering, API-key
  minting, expiry and hashing, credential reconciliation at startup,
  configuration parsing, request validation and error envelopes, CSRF
  tokens, password hashing, rate-limit keys, theme cookies and the Markdown
  pipeline. Calls into outside crates (SHA-256, base64, Argon2, random bytes,
  constant-time comparison, chrono, chrono-tz, pulldown-cmark, ammonia) sit
  behind small trusted wrappers whose contracts are stated in their doc
  comments. Public proof functions state the laws that span several
  functions (round trips, what a reorder keeps, what reconciliation
  converges to).
- `tests/` — executable tests of the library.
- `app/` — the server around the library: Axum routes, the SQLite store,
  sessions, rate-limit and security-header layers, HTML pages and logging.

## Configuration

| Variable | Purpose |
|---|---|
| `BIND_ADDR` | host:port to listen on (required) |
| `DATABASE_URL` | SQLite URL (required) |
| `BASE_URL` | public URL; `https://` turns on secure cookies and HSTS (required) |
| `SESSION_SECRET` | at least 32 bytes, signs the session cookie (required) |
| `USERNAME`, `PASSWORD` | login credentials, required at first boot |
| `TIMEZONE` | IANA time-zone name, `UTC` by default |
| `BEHIND_PROXY` | `true`/`1`/`yes`/`on` to key rate limits on proxy headers |
| `LOG_DIR` | directory for daily-rotated JSON logs |

Empty values count as unset. `USERNAME`, `PASSWORD` and `TIMEZONE` are
reconciled against the stored credentials on every start.
