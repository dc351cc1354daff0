# icebug

Checked inputs and results for the Icebug graph analytics engine (a C++
library reached through a `cxx` bridge).

- `src/` is the library, verified with Verus. It decides everything that is
  decided on the Rust side: whether the Arrow CSR arrays of a read-only graph
  may be handed to the engine (`GraphR::from_csr*`, with the exact refusal
  for each faulty input), what an engine reply becomes (`lift`, the `new`
  constructors of the engine-backed objects, the reply-taking methods), and
  the error type with its message.
- `app/` is the bridge to the engine: the `cxx` declarations, the objects
  that own engine handles, and the engine calls. It hands each reply to the
  library and returns what the library makes of it.
- `tests/` runs the library on concrete inputs.

The engine itself is not part of this repository; `app/` needs it (and the
C++ side of the bridge) to be linked.
