# gateway

The decisions behind the gateway's HTTP API, verified with Verus.

- `src/routes.rs`: the routes of the API.
- `src/access.rs`: who may use which of them, and how a caller who may not is
  answered.
- `src/requests.rs`: what becomes of a request, from the key that it carries to
  the command of its handler.
- `src/status.rs`: the health of the gateway, from the state of the worker's
  task queue.
- `src/projects.rs`, `src/users.rs`, `src/admin.rs`: the handlers. One that
  needs the gateway service, the worker or an ACME server returns a command;
  the outcome of the command goes into a method of it, which returns the next
  command or the answer.
- `src/error.rs`: the errors that the handlers raise themselves.
- `src/trusted.rs`: what is taken on trust about the crates that the library
  calls.
- `app/`: the API on top of axum, over any gateway service.
