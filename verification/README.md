# llrt_stream

The WHATWG streams machinery of a JavaScript runtime, verified with Verus.

A stream step here never touches a script value: values, promises, buffers
and reasons are named by numbered handles, and each step returns, in order,
the outside work its host must perform (settle a promise, call the underlying
source's `pull` or `cancel`, transfer or copy bytes, ...). The contracts state
exactly which steps come back and how the state of the stream changes.

Layout:

- `src/` — the verified library
  - `effect.rs`: errors, reasons, chunks, view types and the steps a readable stream hands out
  - `readable.rs`: the state of a readable stream and its mathematical view
  - `default_controller.rs`, `byte_controller.rs`, `byte_queue.rs`: the two controllers, the byte queue and pull-into descriptors
  - `reader.rs`: default and BYOB readers, cancel, constructors, tee set-up
  - `tee.rs`, `byte_tee.rs`: the shared state of a tee's branches
  - `writable.rs`: writable streams and their writers
  - `strategy.rs`, `module.rs`: size algorithms, and the names of the `stream/web` module
  - `laws.rs`: properties that span operations
- `tests/` — tests of the library on concrete values
- `app/` — the bindings on the QuickJS engine (`rquickjs`): classes, promises,
  buffers and the floating-point numbers of queuing strategies
