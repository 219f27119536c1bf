# tally_odbc_relay

A localhost HTTP relay for TallyPrime's ODBC driver: clients send SQL to
`/query` and check `/health`; the relay runs the SQL through the
`TallyODBC64_9000` DSN and answers in JSON. On start it prepares Tally's
driver for Wine (a `.dll` copy of `TallyWin.Dat`, registered for the DSN).

Layout:

- `src/` — the verified library (Verus).
  - `text.rs`: whitespace trimming, ASCII case-insensitive comparison.
  - `api.rs`: API bodies; reading the SQL out of a request body.
  - `odbc.rs`: ODBC sessions as a state machine (health check and query).
  - `driver.rs`: the driver fix as a state machine over registry and files.
  - `server.rs`: the status and body of each HTTP reply.
- `app/` — the program: command line, axum server, and the registry,
  file and ODBC calls that the state machines ask for.
- `tests/` — tests of the library.
