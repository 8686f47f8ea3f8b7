# registry_backend

The decision logic of a smart-contract registry backend, verified with Verus.

- `src/source_verification.rs` — checking that a contract's published source
  builds to the deployed WASM: a step-by-step run (workspace, `git clone`,
  `cargo build`, locate the `.wasm`, hash it) whose every decision and verdict
  is specified; the caller performs the I/O.
- `src/digest.rs` — SHA-256 (via `sha2`) and lower-case hex (via `hex`).
- `src/text.rs` — prefix/suffix tests and ASCII case-insensitive equality.
- `src/model.rs` — subscription, notification and webhook records.
- `src/exchange.rs` — endpoint plans (database commands with guards) and the
  interpreter that walks a plan reply by reply; the authorization law.
- `src/handlers.rs` — the plan of each endpoint.
- `app/` — axum handlers and the sqlx executor that run the plans, and the
  process/file driver of a verification run.
