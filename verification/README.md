# todo

A terminal todo list. The library (`src/`) is verified with Verus; the
program around it (`app/`) reads commands and files and prints.

- `src/model.rs` — `Status`, `Priority`, `TodoItem`, `TodoList` and the list operations.
- `src/render.rs` — the coloured one-line summary of an item, the listing lines, the banner.
- `src/form.rs` — how each reply of the add/edit form settles a field.
- `src/session.rs` — commands, index and status replies, colour flags, choice of the todo file.
- `src/store.rs` — temporary-file naming, empty list on a failed load, when to migrate.
- `src/text.rs` — trimming, joining, comma splitting, decimal numbers.
- `src/style.rs`, `src/clock.rs`, `src/ident.rs` — the calls into `owo-colors`, `chrono` and `uuid`.
- `src/laws.rs` — properties proved across functions.
- `app/` — the interactive program, JSON persistence (serde) and the per-user data path.
