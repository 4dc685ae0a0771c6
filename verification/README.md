# openwhisper

Push-to-talk dictation for the menu bar: record while a hotkey is held,
transcribe locally with Whisper, optionally tidy the transcript with a local
language model, and paste the result into the focused text field, or leave
it on the clipboard when no text field is known to be focused.

The crate is split in two:

- `src/` is the library, written and proved with Verus. It holds the
  application's decisions on text, settings and state: parsing the hotkey setting, recognising
  silence markers in a transcript, cleaning a model's reply, comparing
  versions, the configuration defaults, model file locations and status,
  the dictation pipeline as a state machine, the Fn-key listener's state,
  the tray's animation and tooltips, and the bounds on a recording buffer.
  Each public function carries a contract, and the properties that span
  several calls are stated as proof functions named `law_*`.
- `app/` is the application around it: the Tauri shell, audio capture and
  resampling, the Whisper and llama.cpp engines, model downloads,
  clipboard and keyboard injection, and the macOS event tap and
  accessibility calls. It performs the I/O the library asks for and hands
  the outcomes back. The floating-point work (resampling, the silence check
  on recorded audio) and the token-by-token generation loop of the language
  model also live there.

`tests/` exercises the library on concrete values.
