# streaming_asr_server

A streaming speech-recognition WebSocket server, with its decision logic
verified by Verus.

- `src/` — the verified library:
  - `ws_handler` — one WebSocket session as a state machine: events in,
    steps out (finalize a round, open a stream, feed audio, send a frame,
    probe, close); idle-timeout clamping; PCM decoding; `final` frames.
  - `protocol` — client commands, server frames, HTTP error bodies, error codes.
  - `auth`, `session` — the access token check, the bound on concurrent
    sessions, and the admission of upgrade requests.
  - `config`, `model`, `logging`, `asr` — settings, model source and
    completeness, log level and log file choice, recognizer settings.
  - `span`, `text`, `paths` — durations, and the `std` string and path
    operations the library calls.
- `app/` — the program: command line, logging setup, model download and
  extraction, the recognizer, the socket loop that performs the library's steps.
- `tests/` — tests of the library.
