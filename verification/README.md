# Nota

Nota records meetings on Windows, has them transcribed by a speech
recognition service and turns transcripts into documents with an AI model.

This crate is Nota's core, written in Verus: every function in `src/` carries
a contract that Verus proves, and the laws the application relies on are
proof functions (`lemma_*`).

- `src/` — the verified library: the recording state machine and controller
  decisions, Ogg page recovery and Opus stream headers, transcription chunking
  and merging, the batch-job protocol of a Nota ASR server, DashScope results,
  the AI prompt, reply and front-matter handling, the audio import batch,
  diagnostic log lines, file names, and the text helpers they share.
- `tests/` — tests on concrete values.
- `app/` — the command-line program around the library: HTTP requests, file
  system work and the rolling log file.

Calls into outside crates (`url` through `reqwest`, `serde_json`, `png`,
`base64`, `sha2`, `chrono`, `crossbeam-channel`) go through a few
`#[verifier::external_body]` wrappers whose contracts say what those crates
document.
