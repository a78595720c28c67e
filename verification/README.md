# mandingo_forge

The Rust core of a desktop studio that runs ComfyUI as a managed sidecar
process, written in Verus and verified.

- `src/settings.rs` — saved settings and their resolution: saved values, then
  the `COMFYUI_*` environment variables, then defaults.
- `src/sidecar.rs` — the sidecar manager as a state machine: each request
  (start, stop, health, readiness) is a step that returns either an answer or
  the I/O to perform next (check files, spawn, send an HTTP request).
- `src/checkpoints.rs` — picking checkpoint model files from a folder listing.
- `src/gallery.rs` — decoding saved images and naming their metadata files.
- `src/text.rs`, `src/order.rs` — white space, trimming, words, decimal
  numbers, replacement and the order of strings.
- `src/http_status.rs` — HTTP status codes through reqwest.
- `src/paths.rs` — joining a file name onto a folder path.
- `src/laws.rs` — properties that span several functions.
- `app/` — the Tauri shell: settings store, environment, processes, HTTP,
  file system and the window.
