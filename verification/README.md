# dsh_desktop

The decision logic of a desktop shell that hosts a local web server in an
embedded browser window, and of the installer that sets it up, written in
Verus and proved against its contracts.

- `src/` is the verified library:
  - `text`: trimming, ASCII lower-casing, prefix and substring tests,
    decimal numerals, each proved against a definition over `Seq<char>`;
  - `paths`: joining names onto folders, and the file-system questions;
  - `workspace`: which launch argument names the workspace folder;
  - `settings`: checking and normalising the connection settings;
  - `window`: saving and restoring the main window's geometry;
  - `shell`: what window, exit, shortcut, menu and relaunch events lead to;
  - `webview`: outbound links, context-menu pruning, permission requests;
  - `installer`: install locations, setup invocation and outcome, and
    which installed executable to start.
- `app/` is the Tauri host around it: commands, window and WebView2
  plumbing, file and process I/O.
- `tests/` exercise the library on concrete values.
