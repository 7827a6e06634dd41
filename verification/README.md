# vortex_client

The editing logic of the Vortex asset editor's client, written in Verus: every
function in `src/` carries a contract that Verus proves.

- `src/` – the verified library: undo/redo histories (`action_stack`,
  `tab_action_stack`, `shape_auth`), the shape graph of skeletons and meshes
  (`shape_graph`, `shape_cleanup`, `delete_edge`, `face_setup`, with the
  laws of its edge maps in `edge_laws`), the icon editor (`icon_manager`,
  `icon_shapes`, `icon_framing`), the waitlist that gathers networked shapes
  component by component (`component_waitlist`, with its ordering,
  release and once-only laws in `waitlist_order`), files and their dependencies
  (`file_manager`), input handling decisions (`input`, `input_events`,
  `canvas_manager`), palettes, skins, models and animations.
- `tests/` – tests of the library on concrete values.
- `app/` – conversion helpers between the editor's ECS world (Bevy, naia)
  and the library (entity ids, authority statuses and snapshots, face color
  maps), and thin drivers that check a library function's preconditions the
  way the editor did before calling it (face selection in a skin, the start
  of a vertex drag in an animation).

Entities are handled as `u64` ids. The editor's drawing, camera maths, hover
picking and drag geometry work on floating-point positions through the
editor's render and math crates; they are not reproduced in this crate, and
neither are the ECS systems that perform what the library decides.
