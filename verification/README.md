# apalis-rsmq

A Redis-backed message queue for [apalis], over the Redis Simple Message
Queue protocol of `rsmq_async`, written in Verus.

- `src/` is the verified library: the queue's configuration (`config.rs`),
  the per-message context and its metadata (`context.rs`), the decisions
  around receiving and acknowledging messages (`lib.rs`, `ack.rs`), the
  queues behind the sink and the delay a message is sent with (`sink.rs`),
  and the types of `rsmq_async` that the queue carries (`rsmq.rs`).
- `app/` is the apalis backend around it: the `Backend`, `Sink`,
  `Acknowledge`, `FromRequest` and `MetadataExt` impls, the async calls to
  Redis, and the serde forms of the messages and their context.
- `tests/` runs the library on concrete values.

[apalis]: https://github.com/apalis-dev/apalis
