# mousai

The logic of a song identifier, verified with Verus: it decodes the answers
of the AudD and Shazam recognition services into songs, runs a recognition
from the toggle that starts it to its outcome, keeps the recordings saved
for a later try and decides when they are sent again, and holds the
navigation history and the texts of the window's dialogs and status.

- `src/` is the verified library. `song.rs` is the song record;
  `recognizer/` holds the recognition flow, the saved recordings and the
  services (`provider/`: AudD, Shazam, the test services and their
  settings); `provider/` holds the simpler service interface with its own
  AudD answer format; `window/` holds the decisions of the views;
  `text.rs`, `json.rs`, `time.rs` and `random.rs` are the helpers and the
  trusted wrappers around `serde_json`, `std::time`, `rand` and
  `indexmap` (in `recognizer/recordings.rs`).
- `app/` is plain Rust around it: serde copies of the answer and record
  types, the process-wide settings, the HTTP requests and the loop that
  performs what the flow asks.
- `tests/` runs the library on concrete values.
