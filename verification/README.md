# thread_pool

A worker pool, a singly linked list and a length-prefixed message format, verified with Verus.

- `src/pool.rs`: the pool's bookkeeping (`Builder`, `ThreadPool<T>`), modelled by
  `PoolState<T>`; it decides when a worker starts, which task each worker takes
  (oldest first) and when a worker leaves. The laws about it are the `law_*` proof
  functions there.
- `src/linked_list.rs`: `LinkedList<T>`, viewed as a `Seq<T>`.
- `src/codec.rs`: frames (an eight-byte big-endian length, then the message), the
  progress of reading one (`FrameProgress`) and the
  round-trip laws between writing and reading a frame.
- `src/handler.rs`: the lines printed for connection events.
- `src/system.rs`: the CPU count and the worker count of an I/O runtime.
- `app/`: threads, sockets and runtimes; they carry out what the library decides.
