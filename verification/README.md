# astral-core

Single-host core daemon for the Astral GUI: JSON-RPC 2.0 on
`127.0.0.1:50051`, run in the foreground or as the system service
`dev.astral.core`.

The library under `src/` is written in Verus. Its functions are verified
against their `requires`/`ensures` contracts, except the small wrappers
marked `#[verifier::external_body]` around calls into std and the outside
crates (hashing, hex, UUIDs, randomness, the clock, paths, service labels,
gRPC codes and endpoints): their contracts are assumed, not proved, and
each says in its doc comment what it claims of the call. The `pub proof fn`
items state the properties that hold across calls (a created token
verifies, the last valid token cannot be revoked, a reconnected node
survives the removal of its stale session, log sequence numbers only grow,
a gRPC frame decodes to what was encoded, the service label names exactly
`dev.astral.core`, and so on).

- `src/`: tokens and device credentials, the controller's session
  registry, the log ring, gRPC framing and authorization checks, the agent
  session decisions on both ends, the JSON-RPC method routing and checks,
  peer summaries, the engine configuration mapping and event mapping, and
  the service-maintenance machines (repair, install, update, uninstall).
- `app/`: the executable: command line, HTTP server, service manager,
  files and processes, each step decided by the library.
- `tests/`: tests of the library's public functions.
