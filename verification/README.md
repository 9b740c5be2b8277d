# spdk

Verified core logic of asynchronous Rust bindings for the Storage Performance
Development Kit (SPDK).

- `src/` is the library, verified with Verus: the state machines of tasks, their
  results, promises, intervals, name lookups and sockets; the text and field rules of
  NVMe transport identifiers, socket addresses, UUIDs and status messages; CPU sets,
  cores and reactors; the ownership rules of NVMe-oF targets and transports; and the
  option builders of targets and transports.
- `tests/` runs the library on concrete values.
- `app/` joins the library to the SPDK C libraries, the C library and the futures
  runtime: every call into them, and the types that carry the standard formatting and
  error traits.
