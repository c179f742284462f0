# atomic_pingpong

A ping-pong buffer: two elements, one reserved for a producer and one for a
consumer, whose roles swap once neither a read nor a write is in progress.

- `src/model.rs`: the abstract state (five flags), what each operation does to it,
  and how the element holding written-but-unread data stands to the flags.
- `src/flags.rs`: the flag byte, its decoding into the model, and the verified byte
  operations (taking, releasing and retaking the read and write locks).
- `src/buffer.rs`: the buffer itself. A read or a write is begun by taking a lock,
  which hands out a token (`Ref`, `RefMut`) naming the element reserved for it; the
  element is reached through the buffer with the token, and the token is given back
  with `end_read` / `end_write`.
- `src/laws.rs`: properties across operations (exclusive locks, distinct elements,
  when the roles swap, what a read gives back of a write, `read_once` handing out
  exactly the data written and not read yet, `write_no_discard` overwriting no unread
  data, the one-step unchecked operations).
- `app/lib.rs`: a thread-shared version built on an atomic byte and `UnsafeCell`,
  whose every decision on the flag byte is one of the verified byte operations.
