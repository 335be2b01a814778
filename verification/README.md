# Whispa

Dictation at the press of a hotkey: press, speak, press again, and the text is in the clipboard.

- `src/` is the library, verified with Verus: what a recording becomes, what is asked of a
  transcription provider and what its answers mean, the course of a dictation and what is kept when
  one fails, and what the user sees.
- `app/` is the desktop application around it: microphone, network, files, clipboard, tray and
  windows, and the floating-point arithmetic on captured samples.
- `tests/` runs the library.

## What is proved

- A WAV file gives back the rate and every sample that was written into it (`wav.rs`). Samples that
  last no longer than the longest recording fit what may be uploaded, at whatever rate it was captured
  (`audio.rs`). That mixing and resampling give as many samples as that is floating-point arithmetic in
  `app/`, and is not proved.
- Nothing of a provider's error response reaches the user but what the library says itself. Of the
  failures by status, only audio that is too large is beyond trying again (`failure.rs`).
- One dictation runs at a time. What is kept survives any number of failed attempts and is never
  replaced by a new recording; it is gone once it has reached the clipboard or the user lets it go.
  The indicator tells what goes on in every state that is reached (`session_laws.rs`).
- A saved key is read back as it was saved, and audio goes to the chosen provider only (`provider.rs`,
  `transcription.rs`).

## What is trusted

`serde_json` parses error responses and `hound` writes WAV files. What is believed of them, and of
`str::trim`, stands in the contracts of `json.rs`, `wav.rs` and `text.rs`.
