# dive_soft

Verified core of a dashboard that controls an arm of artificial muscles.

- `src/` (Verus): `dashboard` (page state, events, effects), `numeric_input`
  (slider text to numbers, as `str::parse`), `theme` (colour schemes),
  `device` (serial frames and the link that refuses commands until a port is
  open).
- `app/`: the Leptos page and the Tauri commands that open the port and write
  the frames; the muscle outlines, computed in floating point, live there too.
