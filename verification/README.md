# MixMixer

MixMixer routes a processed microphone (for example after Equalizer APO) to the
VB-Audio Virtual Cable with minimal latency, with an optional headphone monitor,
a settings window and a tray icon.

## Layout

- `src/` — the verified library (Verus). Device-name matching and stable
  queries, configuration rules, the sample ring buffer, channel-layout
  conversion, the render callbacks' block logic, the reconnect/backoff state
  machine, the settings form, locale parsing and the UI text catalog. Every
  public function states its result in its contract; the `law_*` proof
  functions state the properties that hold across calls.
- `tests/` — tests of the library on concrete values.
- `app/` — the program around the library: audio devices (cpal), resampling
  (rubato), the settings window (eframe/egui), the tray icon, the configuration
  file (serde), command-line handling and logging.

Device names in the configuration are case-insensitive substrings of endpoint
names; run the program with `--list-devices` to see them.
