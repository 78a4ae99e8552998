# slatedb_checkpoint

The checkpoint protocol of a log-structured store, verified with Verus.

- `src/db.rs`: how beginning and creating a checkpoint decide what to do next.
- `src/lifecycle.rs`: the owner's side of a request, which answers it.
- `src/handle.rs`: the observer's side of a request, which waits for its outcome.
- `src/laws.rs`: what holds across these operations.
- `src/oneshot.rs`, `src/ident.rs`: what is trusted of tokio's one-shot channels and of `uuid`.
- `app/`: the asynchronous edges, and the records that serialize.
