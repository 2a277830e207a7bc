# agenter_runner

The protocol logic of an agent runner that drives Codex (`codex app-server`, JSON-RPC
over stdio) and ACP agents (Qwen, Gemini, OpenCode), verified with Verus.

- `src/` is the verified library: JSON values and their text, the Codex codec and id
  maps, the normalization of Codex and ACP messages into runner events, the universal
  event reducer, approval and question obligations, the runtime decisions (which
  session a frame belongs to, what is emitted and answered, which approvals, questions
  and turns stay open), ACP file and terminal requests, provider commands and options,
  and the wire-log records. Every function carries a contract; the laws of the library
  are public proof functions named `law_*`.
- `src/outside.rs` holds the calls into the `uuid` and `chrono` crates and the few std
  functions without a vstd specification, each with the contract it is trusted to meet.
- `app/` is the ordinary Rust around the library: child processes, reading and writing
  lines, serde on the wire, the wire-log file, and the loops that perform what the
  library decides.
- `tests/` exercises the library on concrete messages.
