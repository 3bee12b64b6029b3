# server

The backend of a 3D "galaxy" view of GitHub repositories: a repository is a
star, its top contributors are planets, everyone else is an asteroid belt.

- `src/` is the verified library (Verus). It holds the decisions and
  computations of the service: configuration from text settings, the error
  statuses and messages, the GitHub requests and the client's retry and
  rate-limit decisions, contributor and repository rows, the ranking of
  contributors and the deterministic galaxy plan, the worker's jobs and the
  API's answers.
- `app/` is the program around it: the Axum HTTP server, the Postgres store
  (sqlx), the reqwest client loop, the Tokio worker, and the floating-point
  layout (sizes, orbits, coordinates) computed from the library's plan.
- `tests/` exercises the library on concrete values.
