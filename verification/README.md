# triple_buffer

A triple buffer lets one producer publish values that one consumer reads
whenever it wants the latest one, without either side waiting for the other.
The producer writes into its own buffer and swaps it with a back buffer; the
consumer swaps its buffer with the back buffer when a new publication is
pending.

Layout:

- `src/` is the library, verified with Verus: the encoding of the control
  words, the control-state transactions (as plain values and in atomics), the
  triple buffer with its `Input` and `Output` handles, and a single-owner
  triple buffer. The laws of the protocol (the producer and the consumer never
  share a buffer, an update delivers what was published, and so on) are proof
  functions in `src/protocol.rs`, `src/status.rs` and `src/owned.rs`.
- `tests/` runs the library on concrete values.
- `app/` holds a small demonstration program and the thread-safe triple
  buffer, whose handles share the buffers across threads through
  `UnsafeCell` and call the library for every transaction on the control
  state.
