# rusted_ruins

The user-interface logic of the Rusted Ruins game client, written in Verus
and verified.

- `src/` is the library. Texts come from Fluent bundles (`text`, `texts`):
  a message is looked up in the first language, then in the second, and
  falls back to its id. The windows (`dialogs`, `choose_window`, `menus`,
  `quest_window`, `item_window`, `equip_window`, `creation_window`,
  `status_window`, …) are plain state machines: each takes a command,
  together with what the screen's widgets answered to it, and says what the
  window answers and what the game is to do. `dialog` holds the stack of
  open dialog windows. The rectangles, colors and texts of the screen are
  computed here; drawing them is not.
- `tests/` runs the library on concrete values.
- `app/` reads the Fluent files from the data directories, runs the
  dialog-window stack with window objects of its own, and rounds the
  floating-point powers of effects before their texts are looked up.
