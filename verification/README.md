# sttd

A speech-to-text dictation daemon for Hyprland (`sttd`) and its control
client (`sttctl`), with the daemon's logic written in Verus and proved
against its contracts.

## Layout

- `src/` — the verified library:
  - `state.rs`, `state_laws.rs`: the dictation state machine (push-to-talk,
    continuous mode, capture gate, guardrails) and the properties that span
    its operations.
  - `config.rs`, `config_laws.rs`: configuration defaults, environment
    overrides, the environment file format, path templates and validation.
  - `protocol.rs`, `ipc.rs`, `control.rs`: the control protocol, what each
    request does to the state machine and how it is answered, and what the
    client prints.
  - `audio.rs`, `wav.rs`, `pipeline.rs`: frame sizes, the voice activity
    segmenter, WAV encoding, and the runtime worker's decisions.
  - `provider.rs`, `openrouter.rs`, `whisper_local.rs`, `whisper_server.rs`,
    `openai_compat.rs`: the speech-to-text providers' settings, requests,
    reply handling, error classification and retry loop.
  - `injection.rs`, `playback.rs`, `debug_wav.rs`: transcript output,
    media player pausing, and debug recordings with their cleanup plan.
- `tests/` — tests of the library.
- `app/` — the daemon and the client around the library: sockets, HTTP,
  processes, audio devices, files, and the floating-point sample work.
