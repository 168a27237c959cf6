# shellcaster

A terminal podcast manager. Feeds are subscribed to and synced, episodes
downloaded, played with an external program and marked as played; keys
and colours come from `config.toml`.

The crate is written in Verus: the library under `src/` states what each
function does in `requires` / `ensures` contracts over mathematical
models (sequences, maps, sets), and Verus proves the code meets them.

## Layout

- `src/` — the verified library
  - `text.rs` — strings as character sequences: digits, padding, comparison
  - `config.rs` — settings and their defaults
  - `keymap.rs` — key names, keybindings and the actions they trigger
  - `feeds.rs` — episode durations, reading an RSS document into a podcast
  - `downloads.rs` — file names and extensions of downloads, retries
  - `store.rs` — which synced episodes update stored ones
  - `main_controller.rs` — syncs and downloads in progress, messages,
    the play command, the changes made to the podcast list
  - `opml.rs` — importing and exporting podcast lists
  - `types.rs` — podcasts, episodes and the ordered list that holds them
  - `ui.rs` and `ui/` — the interface's state: menus, panels (as drawing
    commands), the details panel, the message line with its text input,
    popup windows, colours
- `tests/` — tests of the library, run with the real outside crates
- `app/` — the program around the library: the terminal, the database,
  the network, files and threads

Calls into outside crates (regex, rss, chrono, textwrap, escaper,
sanitize-filename, shellexpand, opml, unicode-segmentation) go through
small trusted wrappers whose contracts say what the crate's source shows.
