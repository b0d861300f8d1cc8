# cargo-serve

A Cargo plugin that watches a project, rebuilds it on change, and restarts the
server only when the build succeeds, so a broken build never takes the running
server down.

- `src/` is the library, every function with a proved contract: command-line
  flag forwarding (`cli`), package and target resolution (`project`), the
  check → build → stage pipeline and cargo's JSON output (`builder`, `json`), the supervisor
  that decides when to build and restart (`supervisor`), the graceful stop
  sequence (`server`), the watcher's ignore rules and debouncing (`watcher`),
  and the error type (`error`). Each decision is a function from state and
  event to next state and action, with its contract and the properties the
  tool promises proved as lemmas.
- `app/` is the program around it: argument parsing with clap, `cargo
  metadata`, running cargo, copying and renaming files, spawning and
  signalling the server, and the file watcher. It performs the actions the
  library decides and feeds the outcomes back.
- `tests/` exercise the library on concrete values.
