# clipship

The verified core of Clipship, a desktop clipboard uploader: press a global shortcut and the
first file or image on the clipboard is copied to a remote host over `ssh`/`scp` (or into a
local directory), and the resulting path is put back on the clipboard.

- `src/` is the library, verified with Verus: file-name sanitizing and time-stamped names,
  remote paths, the exact `ssh`/`scp` command lines, configuration validation, clipboard
  classification and change detection, notification texts, the double-tap shortcut rule,
  the in-flight guard, cleanup planning, and the upload and connection-test flows as state
  machines (`UploadFlow`, `TestConnection`) with their laws.
- `app/` is the Tauri application around it: it performs the I/O that each flow step asks
  for (clipboard, files, processes, notifications, keystrokes) and hands the outcome back.
- `tests/` runs the library on concrete values.
