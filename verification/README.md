# handy

The logic of the Handy dictation app's desktop shell, written in Verus and
proved against its contracts.

- `src/` is the verified library:
  - `text_postprocess`: spoken numbers and symbols turned into digits and
    symbols (English and Polish), first-letter case, the language choice;
  - `text_chars`: the character helpers and word runs those passes use;
  - `icon_tint`: accent colours and the recolouring of branded pixels;
  - `bundle_icon`: the accent-tinted `.ico` beside the executable (its path,
    canvas, frames and their encoding);
  - `tray`: the tray icon, tooltip, clipboard text and menu layout;
  - `listening_status`, `listening_compact`: the listening status and the
    compact listening mode;
  - `cursor_context`: whether dictated text starts with a capital letter;
  - `appearance`: colour settings.
- `tests/` runs the library on concrete values.
- `app/` is the Tauri shell around the library: windows, tray, events,
  settings, files, and the floating-point colour mapping. It is ordinary
  Rust and is not verified.
