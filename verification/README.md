# supervisor

The core of a WebAssembly IoT supervisor, verified with Verus: it plans the
deployments that an orchestrator sends, decides which function runs are
admitted and how a chain of calls goes on, keeps the request history, and
computes the host functions' effects on a module's memory.

- `src/` — the verified library. `api/` holds the decisions behind the HTTP
  interface (deployments, runs, results, device), `structs/` the documents,
  `strmap.rs` the ordered string map they use, and the remaining modules the
  paths, logging records, network identity, host functions and runtime
  bookkeeping.
- `tests/` — tests of the library.
- `app/` — the service itself: HTTP server, downloads, files, system
  readings and the wasmtime engine, calling into the library for every
  decision.
