# ctr_checker

The backend of CTR Checker, a service where creators pay for tasks made of
images and workers pick among the images of each task.

- `src/` is the verified library: the data model, the role checks in front of
  the routes, wallet sign-in with one-time nonces and ed25519 signatures, the
  task lifecycle (a task completes at its 1000th submission), workers'
  counters, and every error the service answers. Its contracts and laws are
  checked by Verus. A worker's submission is decided by
  `services::worker::worker_task_submission`: given the task, worker and
  option rows (read under lock), it returns the rows to write or why the
  submission is refused.
- `app/` is the HTTP service around it: axum routes and middleware, the
  PostgreSQL queries and transactions (diesel), which read the rows the
  library decides on and write what it returns, the nonce store (redis), JWT signing, and
  presigned S3 upload URLs (the URL's size and content type come from the
  library's upload target).
- `tests/` runs the library on concrete values.
