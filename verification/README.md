# mesh-llm

The decisions of a mesh of nodes that serve language models, as a library whose
behaviour is stated in contracts and proved with Verus, and the program around
it.

- `src/stage` serves one connection between pipeline stages: which message is
  computed, forwarded, answered or awaited, and what is traced of it.
- `src/decode` configures speculative decoding, judges verified windows,
  schedules them and keeps count.
- `src/mesh` checks the frames that nodes exchange, groups the names of models,
  builds requests to other nodes and reads their answers.
- `src/host` decides which models a node loads and unloads, and how it stops.
- `src/benchmark.rs` keeps what was measured of the GPUs of a node.
- `src/checks` holds documents, workflows and crate lists of the repository
  against each other.
- `src/text.rs`, `scan.rs`, `number.rs`, `order.rs`, `names.rs`, `attrs.rs`,
  `json.rs`, `document.rs` and `text_set.rs` are what these are written with.
- `app` reads, writes, waits and runs what the library decides.
- `tests` runs the library.

Functions named `law_…` state what holds over several calls. Measured values
are of a type parameter `M`: the library stores and reports them and computes
with whole nanoseconds instead.
