# clipboard_history

Verified helpers behind a clipboard-history desktop app, written in Verus.

- `src/theme_manager.rs`: the system colour scheme (its one-byte encoding,
  the mapping from the window theme), the `ThemeCache` that holds the last
  known scheme and the dynamic-tray-icon setting, what a theme change
  announces, and which tray icon to show. Laws about these stand at the end
  of the file as proof functions.
- `src/gif_manager.rs`: the GIF cache directory and the cache file of a URL
  (its hash in decimal, `.gif`), the HTTP status verdict, and the paste flow
  (`PasteFlow`): it names the next action (download into the URL's cache
  file, copy that file's URL, fall back to the URL text, or finish) and moves
  on with the outcome of each.
- `app/`: the desktop side (Tauri window and tray, downloads with reqwest,
  the cache directory on disk, the clipboard through arboard and AppKit). It
  performs the actions and hands the outcomes back to the library.
- `tests/`: tests of the library on concrete values.
