# cbf_chrome

The Chrome-specific side of a Chromium browser framework: the vocabulary
exchanged with a CBF-patched Chromium runtime, the decoding of bridge events,
the planning of bridge calls, and the decisions of the backend event loop,
written in Verus with contracts proved by the verifier.

Layout:

- `src/codes.rs` — the numeric wire codes of the bridge.
- `src/data/` — tab, input, IME, drag, download, prompt, menu and policy
  models, with their code conversions and round-trip laws.
- `src/bridge/` — raw bridge records (`map.rs`), event decoding
  (`parse_event`), call planning (`client.rs`, `call.rs`) and the event type.
- `src/backend.rs` — wake-up and stop decisions of the backend loop, and the
  shutdown state machine.
- `src/chromium_backend.rs` — connection options and retry decision, and the
  coalescing of tab resizes while one is in flight.
- `src/command.rs` — Chrome-specific commands and the bridge call that
  carries out each one (`plan_command`).
- `src/chromium_process.rs` — the Chromium command line.
- `src/bridge_library.rs` — where the bridge library is loaded from.
- `app/` — unverified glue: loading the bridge library, the C ABI records,
  threads and waiting, process spawning.
- `tests/` — executable tests of the library.

Not covered: the mapping between these Chrome-specific commands and events and
the browser-generic `cbf` crate (`BrowserCommand`, `BrowserEvent`, the browser
handle extension, session start-up), since that crate is not a dependency
here; commands and events carrying floating-point coordinates (mouse, wheel,
drag updates and drops); JavaScript-dialog answers and window opening, whose
types belong to `cbf`; and the extension-popup composition and
text commit, whose transient IME types are not defined in this code base.
