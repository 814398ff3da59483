# quickwhisper

Push-to-talk voice transcription for Linux (GNOME/Wayland): hold a key, speak,
release, and the words are transcribed locally by whisper.cpp and land in the
clipboard.

## Layout

- `src/` — the library, verified with Verus. It holds the rules of the
  program with their contracts and laws:
  - `config` — configuration fields, defaults, the command-line keys
    (`config get`/`config set`) and their validation, the user's file paths;
  - `hotkey` — key names to evdev key codes, and which raw input events are
    presses and releases of the configured key;
  - `daemon` — the push-to-talk state machine (push-to-talk and toggle modes,
    the recorder's safety cap, accidental taps) and what becomes of a
    transcription;
  - `models` — model file names, paths, presence, listing and download
    bookkeeping;
  - `transcribe`, `audio` — whisper's input length, thread count, transcript
    assembly, and the capture loop's decisions;
  - `clipboard`, `overlay` — the clipboard fallback and the state published
    to the GNOME Shell overlay;
  - `text` — character-level string helpers (decimal numbers, trimming, path
    joining) with exact specifications.
- `app/` — the `quickwhisper` program: command line, audio capture and
  resampling, whisper inference, the SQLite history, D-Bus, notifications and
  the daemon loop, which asks the library for every decision.
- `tests/` — tests of the library on concrete values.
