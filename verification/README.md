# http_forward

A connector that forwards one call to a configured HTTP endpoint, with its
call logic verified in Verus.

- `src/` — the verified library: endpoint preparation, request-body
  encoding, planning and shaping of each attempt, response-size limits,
  body decoding, header exposure, the retry policy (full-jitter backoff,
  `Retry-After`, overall deadline) as a step function, and the mapping of
  failures onto the connector error boundary.
- `app/` — the asynchronous connector around it: the HTTP client, sending
  and reading, clocks and sleeps, serde wire forms, and the
  `Implementation` trait impl.
- `tests/` — tests of the library on concrete values.
