# condvar

Mutexes and condition variables over foreign implementations of them: the system's pthreads, two
variants of musl's, and two versions of LLVM's.

- `src/` is the verified library. It decides which foreign routine each operation calls and on which
  addresses (`backend`, `call`), what the returned code means (`errno`), and what comes of the
  operation (`mutex`, `condvar`, `pending`). `session` and `exclusion` state what guards are worth:
  the order of their calls, that no two of them exist at a time, and that what one leaves is what
  the next one finds. `refinement` ties the operations to that, and `life` states that calls about
  an object stay between its init and its destroy.
- `app/` runs it: it owns the memory, makes the foreign calls, and hands out the value. Whoever
  builds it links it with libc's pthreads and with the objects that define the `cv_`, `cvw_` and
  `llvm_` routines declared in `app/ffi.rs`.
- `tests/` drives the operations by hand, with codes chosen by the test.
