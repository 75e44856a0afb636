# rinha

The payment services of a "Rinha de Backend" entry: an HTTP service that queues
payments and reports per-processor summaries, a worker that forwards queued payments
to a payment processor and records them in PostgreSQL, and a single-process service
that does both.

- `src/` is the verified library (Verus): configuration from environment values,
  the summary query and the summary built from its rows, the `INSERT` statements,
  the checks on a payment before it is recorded, the processor address and the
  meaning of its answer, and the decisions of the queue consumers. Date and UUID
  parsing call chrono and uuid through trusted wrappers.
- `app/` is the unverified shell: `main`, environment reading, HTTP (axum, reqwest),
  Redis, PostgreSQL, JSON, clocks and the consumer loops. Run it as
  `rinha api`, `rinha worker` or `rinha server`.
- `tests/` exercises the library on concrete values.
