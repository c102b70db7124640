# rscreenrec

The control logic of a local screen recorder that records a PipeWire screen
cast with GStreamer, serves a web front end over HTTP, and joins recorded
segments with ffmpeg. The logic is written in Verus and proved against its
contracts; the server around it is ordinary Rust.

- `src/` — the verified library:
  - `control` — the recorder state and the control requests (status, start,
    stop, pause, resume, exit) with their answers;
  - `session` — the recording task as a state machine over segments, with its
    invariant and laws over whole command sequences;
  - `pipeline` — the GStreamer pipeline descriptions, file names, the ffmpeg
    concat list and arguments;
  - `capture` — cursor setting, preview size, preview stream framing;
  - `devices` — the microphone list and the default sink's monitor source;
  - `assets` — which embedded asset a request path gets, and its media type;
  - `decimal`, `text` — integer rendering and text helpers (trimming).
- `tests/` — tests on concrete values.
- `app/` — the server: HTTP routes (axum), the screen cast portal (ashpd),
  GStreamer pipelines, files and processes. It performs what the library
  decides.
