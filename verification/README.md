# wg-manager

A web manager for WireGuard peers, in two processes: `wg-manager`, the web UI
and JSON API run as an unprivileged user, and `wg-worker`, run as root, which
carries out a fixed set of `wg` commands sent to it over a UNIX socket.

## Layout

- `src/` — the library, verified with Verus:
  - `config` — `config.yaml` sections and their defaults, login and session
    checks, the password round trip of the settings page;
  - `protocol`, `worker`, `wgcmd` — the worker's requests and replies, which
    `wg` command each request runs and how its outcome is answered, and how
    the manager reads the answers;
  - `dump` — reading `wg show <interface> dump`;
  - `ipalloc` — the address of a new peer (`ipnet` parses the range);
  - `conf`, `qr` — the client configuration and its QR code (`qrcode`,
    `image`);
  - `db` — the SQLite database (`rusqlite`, `chrono`): the statements'
    parameters and the mapping of rows to values are verified; what the
    database file holds is SQLite's;
  - `web`, `flows` — the decisions of the API: dashboard rows, peer updates,
    and the multi-step requests as state machines;
  - `version` — the installed WireGuard version against the latest release;
  - `docs` — the manual pages (`pulldown-cmark`);
  - `text` — string helpers and their specifications.
- `app/` — the executable: the axum server, the worker's socket loop, file,
  process and network I/O, YAML and JSON, HTML templates.
- `tests/` — tests of the library.
