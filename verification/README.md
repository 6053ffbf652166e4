# voicesub

The decision logic of VoiceSub's speech pipeline, written in Verus and verified:

- **Local ASR** (`src/`): configuration merging and normalization, latency presets,
  the VAD segment pipeline and its decode queue (coalescing, final-first ordering,
  stale-generation filtering), emit and hallucination filters, decode pacing, the setup
  checklist, module status and diagnostics, dependency and model install checks, and
  download progress.
- **Browser speech worker**: Chrome launch flags and their finalization, the ingress
  gate for worker payloads, the operational state machine, status-log sampling,
  orphan-worker reaping, CPU affinity, WebView power policy and UI language selection.
- **TTS audio**: playback worker decisions, output device lists and resolution, and
  per-process routing.

Laws of the library are public `proof fn law_*` items beside the functions they relate.

`app/` holds what cannot be verified: file and network I/O, audio devices, the speech
engine, threads and async plumbing, and the floating-point signal processing and voice
activity detection.  `tests/` exercises the library on concrete values.
