# reading_app_web

A local-first reading and writing application for the browser, built with
egui and IndexedDB, together with two native helpers of its development
scripts.

- `src/` is the verified library: the application state and every decision
  taken on user events and storage outcomes (`reading_app`), the stored
  records (`model`), text measurement, previews and emoji filtering (`text`),
  the development server configuration (`serve_config`), the storage layout
  and record gathering (`storage`), and the properties that hold across these
  operations (`laws`).
- `app/` performs the input and output: the egui interface and the wasm
  entry point (`ui`, `start`), IndexedDB access (`database`), the
  configuration helper (`server_config::run`) and the log filter
  (`log_filter::run`).
- `tests/` exercises the library on concrete values.
