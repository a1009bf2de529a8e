# mass_events

Services for running "mass events": a **process-runner** that keeps named FIFO
queues of JSON processes in Postgres behind an HTTP API, a **client** for it, a
**scheduler** that runs stored cron schedules, and a **worker** that polls the
runner for work.

- `src/` is the library, verified with Verus. The services' decisions live
  here, stated in contracts and proved: queue-name validation, the SQL texts
  and the values bound to them, the transaction flows (what to run next, when
  to commit or roll back, what to return), the HTTP answers of every handler,
  the client's addresses and status handling, which schedule fires next and the
  job/schedule bookkeeping of the scheduler, the worker's polling decision and
  the services' listen address.  A model of a queue's rows states what handing
  out processes does to a queue.
  The flows are state machines: the caller performs the action asked for and
  hands back what came of it.
- `app/` is the program around it (`mass_events runner|scheduler|worker`):
  command-line and file configuration, axum routes, sqlx queries, reqwest calls,
  the tokio-cron-scheduler jobs and the OpenAPI documents. It drives the
  library's flows and converts between its serde/sqlx types and the library's,
  among them the worker's reading of a JSON reply (object? `command` key?).
- `tests/` runs the library on concrete values.
