# ten_four

Push-to-talk speech-to-text for Linux: a daemon records while a hotkey
toggles it, transcribes the recording, and types the text into the focused
window.

- `src/` is the verified library: the socket protocol (`ipc`), the daemon's
  state machine and its laws (`daemon`), text trimming and case handling
  (`text`), transcript assembly and recogniser settings (`transcribe`),
  input-device and recorder set-up (`audio`), text injection commands
  (`inject`), and model and service-file choices (`setup`).
- `app/` is the program around it: command line, Unix socket, audio capture,
  WAV files, the Whisper and Vosk engines, and running external programs.
- `tests/` exercises the library on concrete values.
