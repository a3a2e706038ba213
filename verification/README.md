# cocoindex_engine

The logic behind the Python module of an indexing engine, verified with Verus.

- `src/` is the library: rendering the spec of a flow, listing the schema of its data, bundling
  setup changes, matching arguments with input fields, wording errors, and planning the entry points
  whose work lies outside. Each function states what it does, and Verus proves it.
- `app/` is the Python module itself. It performs the steps that the library plans, on an engine that
  is put in place behind the `Engine` trait.
- `tests/` runs the library on concrete flows, schemas and calls.

Two outside crates are called from the library: `indexmap`, which keeps the sections of a rendered
spec in order (`src/sections.rs`), and `serde_json`, which prints a flow's document (`src/json.rs`).
What is believed of them stands there, above each function that calls them. The text of an error is
written by the error's own `Debug` (`debug_text` in `src/errors.rs`).
