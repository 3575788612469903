# hyprnote

Verified core of a desktop note-taking and transcription tool: the decisions and data
handling of its audio capture, command-line batch transcription, local speech-to-text
server, Outlook calendar import, system permissions and screen capture.

- `src/` is the library, written in Verus and verified:
  - `audio/`: the sample ring buffer, pushing captured samples into it (`rt_ring`),
    reading them back one at a time (`async_ring`), and audio inputs and streams (`input`).
  - `cli`: argument checks and transcript assembly of the batch command.
  - `stt`: events and lifecycle of the local speech-to-text server.
  - `calendar`: conversion of Outlook events to the shared calendar form.
  - `permissions`: reading permission states and choosing how to check them.
  - `screen`: screenshot and recording targets and the recorder state.
  - `text`: string helpers.
- `app/` holds what runs around it: the command-line program, device and network I/O,
  processes, and the serialised forms of the library's types.
- `tests/` runs the library on concrete values.
