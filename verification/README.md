# record_screen

The planning and decision logic of a cross-platform screen recorder, with
its contracts proved by Verus.

- `src/` is the verified library: recorder state and its timing
  (`app_core`), settings paths and shortcut normalisation (`storage`,
  `shortcuts`), the merge of a saved settings document over the defaults
  (`json`), permission guidance (`permissions`), backend selection
  (`capture`), and the per-platform plans (`linux`, `macos`, `windows`):
  parsers for the output of the session's tools, capture targets, audio
  routing, encoder choice, pipeline arguments, the ScreenCast portal
  negotiation and the control of a running capture process.
- `app/` is the plumbing around it: reading and writing the settings files,
  the serialisable records, running the Linux tools, the D-Bus portal calls
  and signalling the recorder process.
- `tests/` exercises the library on concrete values.

Laws that span several operations are public proof functions whose names
begin with `law_`.
