# glassmarlin

The launcher logic of the GlassMarlin desktop shell, verified with Verus.

- `src/` — the verified library: data-directory layout (`paths`), bundle
  extraction decisions and decompression (`bundle`), the session secret
  (`secrets`), the interpreter's launch command, readiness wait and graceful
  stop (`runtime`), the window scripts and lifecycle of the shell (`shell`),
  launch errors (`errors`) and the text helpers they rest on (`text`).
- `tests/` — tests of the library on concrete values.
- `app/` — the desktop program: file system, process, HTTP, signals and the
  Tauri window, driven by the library's decisions.
