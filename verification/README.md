# cpc-paths

Portable path discovery for CPC MCP servers, verified with Verus.

Three core paths (Volumes, install, backups) are resolved with the precedence
in-process cache → environment variable → `.cpc-config.toml` → (backups only)
`{install}/../backups` → auto-detect → interactive prompt (only with a
terminal) → error.

## Layout

- `src/` — the verified library.
  - `resolver.rs`: the cache, the path descriptors, and the resolution machine
    (`start`, `step`): every question to the outside world is an action, every
    answer an event. `resolution` states the precedence whole, and
    `machine_follows_precedence` proves that the machine implements it; further
    proof functions state the non-interactive guarantee, the absence of a
    negative cache, and that the cache returns what was resolved.
  - `config.rs`: the `.cpc-config.toml` record and the changes made to it.
  - `platform.rs`: platform names and the auto-detect candidates per platform.
  - `health.rs`: the diagnostic report.
  - `text.rs`: trimming and number reading for prompt answers.
  - `error.rs`: the error type and its messages.
- `app/` — the process-facing crate: environment variables, the disk, the
  terminal, the global cache, TOML (de)serialisation and error types with
  `Display`; it drives the machine and exposes `volumes_path()`, `health_check()`
  and the rest of the public API.
- `tests/` — tests of the library.
