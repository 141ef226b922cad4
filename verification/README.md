# voicetypr

The decision logic of the VoiceTypr dictation app, written in Verus: every
function in `src/` carries a contract that Verus proves.

- `src/` is the verified library: prompt building for AI formatting, the
  hotkey and escape-key state machines, model and engine selection, remote
  server settings, meeting records and summaries, log selection and
  redaction, device identifiers, ffmpeg invocations, history and recording
  retention, integer audio conversion, and the text and sorting helpers they
  share. Calls into `regex`, `sha2`, `chrono`, `keyboard-types`, `hostname`
  and `local-ip-address` go through small trusted wrappers whose contracts
  name or state what those crates return.
- `app/` is the unverified shell: files, the clock, child processes, JSON
  records (serde copies of the library's types) and the floating-point audio
  path.
- `tests/` runs the library on concrete values.
