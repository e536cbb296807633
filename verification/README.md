# tuxmix

Control logic for the RME Babyface Pro FS mixer (TotalMix-style mixing on
Linux), verified with Verus.

`src/` is the verified library. Every function states what it returns in
its contract, and the properties that relate several functions are proved
as lemmas at the end of each module:

- `panel`, `frontpanel`: the host-driven front panel (decoding the status
  readback into MIX/wheel/button events, and the register writes that
  answer them).
- `topology`, `links`, `controls`, `solo`, `scene_apply`: how model
  channels map onto the device's sources, outputs and mixer controls;
  pair linking; exclusive solo; the writes that follow a scene recall.
- `mixer`, `selection`, `layouts`, `ui`, `matrix`, `osc_log`: interface
  state of the graphical mixer (global mute/solo, groups, undo history,
  strip selection, layout slots, views, matrix row groups).
- `items`, `keys`, `eq_edit`: the terminal interface's pair-grouped lists,
  key handling and EQ editor.
- `inputs`, `strips`: the preamp state an in-memory backend keeps, and
  mute/solo with pair links and group propagation, with their checks.
- `scene`, `autosave`, `settings`, `backend`, `audio`, `channel`, `error`,
  `text`:
  scene files and paths, device rules, backend choice, the audio session,
  the channel model's enums, errors and text formatting.

`app/` holds what the verifier does not take: the floating-point level
curves and meters, JSON scenes on disk, and the loop that opens a backend.

`tests/` runs the library on concrete values.
