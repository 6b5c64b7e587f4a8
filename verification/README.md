# rust_axum_todo

A task-management HTTP service with password login, a mailed six-digit second
factor, role-checked task creation and assignment, and a per-user cache of task
lists.

- `src/` is the verified library (Verus). Each request that alternates storage
  calls and decisions is a state machine: a state names the storage operation it
  waits for (`pending_action`), and a step function takes what the storage layer
  reported and returns the next state or the reply. Contracts are stated over
  views of the data; the laws of the service are public proof functions beside the
  steps they speak of (`login`, `two_factor`, `tasks`, `seed`, `cache`).
- Calls into argon2, jsonwebtoken, rand, uuid and chrono stand in `src/crypto.rs`,
  `src/ids.rs` and `src/time.rs`, each behind a trusted wrapper whose doc comment
  says what is claimed of it.
- `app/` is the service itself: axum routing, SQLite through sqlx, Redis, JSON, and
  the loops that perform the actions the library's state machines ask for.
- `tests/` runs the library on concrete values, with the real outside crates.
