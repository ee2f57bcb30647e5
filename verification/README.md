# mpc_audio

Host-side audio for an MPC2000XL-style instrument, verified with Verus.

- `src/` is the library: the render of a pad or count-in intent frame by
  frame, the host-audio engine as a state machine over its view
  (`engine.rs`), the fixture reports that compare an engine with what a
  fixture expects (`conformance.rs`, `mismatch.rs`), the rights boundary and
  refusal mutations of saved project JSON (`project_json.rs`), and the
  desktop status texts (`display.rs`). Its functions carry contracts that
  Verus checks. A few wrappers of std and serde_json calls (`{:?}` of a
  string, `Path::file_stem`, `String::push`, parsing JSON text) have
  contracts that are taken as given. `laws.rs` states and proves the
  properties that hold across calls.
- `app/` holds what the verifier does not see: the serde forms of the
  library's types and writing fixture WAV files.
- `tests/` runs the library on concrete values.
