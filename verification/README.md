# spray_selector

A spray selector for Source engine games (Team Fortress 2, Garry's Mod,
Left 4 Dead 2, ...): browse the `.vtf` sprays of a folder, preview them,
keep favorites and per-game folder profiles, and set the active spray.

- `src/` is the library, verified with Verus: which files a folder offers
  (`folder`), the JSON documents kept on disk and how favorites and the
  folder are stored in them (`json`, `documents`), game profiles
  (`profiles`), the material and copy that set a spray (`spray`), the
  scaled preview (`preview`), and the window's state machine (`window`).
- `app/` is the egui program around it: drawing, reading and writing files,
  decoding `.vtf` textures, and turning clicks into events for the library.
- `tests/` runs the library on concrete values.
