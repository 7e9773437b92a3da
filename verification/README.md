# dioxus_support

Support routines for Dioxus documents and the Dioxus CLI, verified with Verus.

- `src/document.rs`: quoting strings as JavaScript literals, rendering element
  attributes, and the script that creates an element in a document's head; the
  `Document` provider trait and the document that does nothing.
- `src/js_reading.rs`: readers for the JavaScript that `document.rs` writes,
  and the laws that literals, attribute arrays and the head-element call read
  back as what was written.
- `src/eval.rs`: the evaluator interface, the evaluation handle with its send
  and poll operations, and the evaluator that answers every request as
  unsupported.
- `src/clock.rs`: readings of the monotonic and system clocks.
- `src/trace_src.rs`, `src/logging.rs`, `src/uptime.rs`: the CLI's log
  routing: sources of messages, record collection, log-file and TUI lines,
  filter directives, cargo messages and the uptime stamp.
- `src/fullstack.rs`: cargo features and `RUSTFLAGS` of fullstack builds.
- `app/`: the tracing subscriber and layers, the TUI channel, the log file and
  the environment variables, built on the library.

Each public function states its result in its contract; the `law_*` proof
functions state properties that span several of them.
