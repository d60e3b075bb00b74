# dc_pipeline

Decision logic of a chat-send guard, written in Verus. The guard watches a
chat window, reads the draft in the input box and holds the send key back
while a fresh verdict says the message does not fit its recipient.

## Layout

- `src/` — the verified library.
  - `intercept/` — send and content key classification, the guard state
    machine, the draft-epoch and foreground trackers, bus message types.
  - `guard.rs` — trigger merging, layout reuse, the run a trigger leads to,
    what a stage failure does.
  - `capture.rs`, `ocr/` — when a window may be captured, which region is
    read, and how recognised lines become the draft, the chat target and the
    conversation excerpt (reading order, noise filtering, confidence floor).
  - `sem/` — L1 rules (over `aho-corasick` and `regex`), contact profiles, the
    scenario table, the embedding texts and the rule-stage judgement.
  - `verdict.rs` — verdicts, the draft fingerprint and the lock-free verdict
    slot (over `arc-swap`). The slot is shared between threads, so its own
    methods carry no contract; the freshness rule it applies is stated and
    proved only in `fresh_of`, `stamp_is_fresh`, `stamp_for` and the stamp
    lemmas beside them.
  - `ieee.rs` — ordering of single-precision values carried as bit patterns.
- `tests/` — tests of the library.
- `app/` — what is driven from outside: serde file formats, the scenario
  file, the thread queues, the stage loop, desktop capture, and the
  floating-point parts (DPI geometry, layout post-processing, perceptual
  hash, L2 heads).
