# tikv_client

A client for a TiKV cluster, verified with Verus.

`src/` is the library. It holds the protocol messages the client reads and
writes (`client/messages.rs`), region leaders and the request context built
from them (`client/comment.rs`), the cache of region leaders by key
(`client/region_cache.rs`), what is asked of the placement driver and how its
replies are read (`client/pd_client.rs`), what is asked of TiKV
(`client/kv_client.rs`), the cluster client that ties these together
(`client/client.rs`), the TLS material (`client/security.rs`), and the keys and values that the
program's workers store (`workload.rs`). Each
network step is split in two: the library builds the request, the caller
sends it, and the library takes the reply and decides.

`app/` is the program around it: the gRPC channels and calls, the
conversions to and from the generated protocol types, and `main`.

The generated protocol types (`kvproto`) could not be fetched: the crate is
not published on the registry this project builds from. `app/` still names
them, so it does not compile here; `grpcio` did not build either (its build
needs `cmake`).
