# ora

The verified core of the Ora AI chat IDE backend.

## Layout

- `src/contracts/` — app-facing payloads: worktree CRUD, ACP file, plan and
  terminal messages, and the session and task payloads the backend answers with.
- `src/domain/` — the session domain model and its stable database codes.
- `src/application/` — application errors and the domain-to-contract session mapping.
- `src/backend/` — transport-neutral backend errors and the task use-case decisions
  (deletion outcomes, project lookup, worktree-root snapshots).
- `src/web/` — web-server bootstrap paths and error mapping, the audit clock,
  worktree request assembly, and the router's endpoint table.
- `src/desktop/` — Desktop configuration payloads and the worktree-root update,
  written as a step function with proved rollback behaviour.
- `src/logging/` — the configured time zone and the local clock built on chrono,
  chrono-tz and time.
- `src/xtask.rs` — command-line validation of the workspace task runner.
- `app/` — unverified edges: serde/ts-rs wire copies of the payloads, the
  environment-backed clock cache, the Desktop command driver and the task runner.
