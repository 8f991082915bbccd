# keyra

A sharded in-memory key-value server. `src/` is the verified library:

- `shared::storage` — the dynamically typed `Types` values, their conversions
  (`FromTypes`), and the process-wide `Storage` (a `dashmap::DashMap`).
- `storage` — the byte-keyed store of each shard and `process`, which serves
  set and get requests.
- `handler` — decoding of binary frames and routing to the owning shard.
- `sharding` — `get_shard_id`, the shard of a key.
- `protocol` — the logic behind the gRPC, HTTP and raw binary interfaces.
- `config`, `types` — settings and inter-core messages.

`app/` holds the executors, sockets, HTTP server and JSON forms of the values.
