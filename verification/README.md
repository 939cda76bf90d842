# vidu-cli

A command-line client for the Vidu video generation API, built around a
library whose decisions are proved correct with Verus.

## Layout

- `src/` — the verified library (`vidu_cli`). Every check the client makes
  before it talks to the service, every request it forms and every answer it
  reads is a function here with a `requires`/`ensures` contract over
  mathematical models (`Seq<char>`, `Map`, `int`):
  - `catalog`, `task_body`, `submission` — task types, models, durations and
    settings; the body of a generation task and its validation.
  - `validators`, `voices`, `lip_sync`, `tts`, `elements`, `compose` — the
    rules of the other commands.
  - `timeline` — a composition timeline as JSON: its clips' timings and URLs,
    and the rewrite of those URLs once they are resolved.
  - `requests`, `responses`, `retry`, `failure`, `string_map` — headers,
    query parameters, error bodies, the retry policy and the error object.
  - `upload`, `media`, `paths` — content types, image decoding and JPEG
    compression, file naming, and most calls into outside crates (image,
    mime_guess), each behind a small trusted wrapper whose contract says
    what it claims; `compose` reads an MP4's size with mp4parse the same
    way.
  - `usage` — the agent-friendly rendering of command-line parse errors.
  - `text`, `sort` — string building blocks with their meaning on `Seq<char>`.
- `app/` — the program: argument parsing (clap), environment, HTTP
  (reqwest), reading files, JSON (serde_json), reading an image's size
  from its file header (image) and an audio file's duration (lofty), and
  the few checks made on floating-point values.
- `tests/` — tests of the library on concrete values.

Laws that span functions are public proof functions named `law_*`.
