# openbolo

The logic of a hold-to-talk dictation app, verified with Verus.

- `src/text.rs`: string helpers (prefix, split on `+`, ASCII case) with contracts over `Seq<char>`.
- `src/keys.rs`: macOS key codes, key and mouse-button names in both directions.
- `src/shortcut.rs`: shortcut strings (`key:…`, `mouse:…`, `combo:…`), what they parse to and how they are shown.
- `src/grab.rs`: the grabber as a step function from state, settings and one input event to the next state, the shortcut events to report and whether to swallow the input.
- `src/devices.rs`: the list of input devices offered in the settings.
- `src/trim.rs`: where the silence-trimming windows lie and which range of a recording is kept.
- `src/laws.rs`, `src/grab_laws.rs`: properties across functions and events.
- `app/`: audio capture (cpal), the event tap (CoreGraphics), text typing (enigo), and the floating-point signal processing.
