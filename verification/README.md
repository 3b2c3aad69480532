# vocofo

A dual-panel terminal file manager for local, SFTP, FTP and SCP filesystems,
whose rules are proved with Verus.

## Layout

- `src/` — the verified library. Every key press goes through
  `event_handler::session::handle_key`, whose contract says what it does on
  each screen; what a handler cannot do itself (start a worker, open a
  connection, write the settings file) it returns as an `Effect`.
  - `context` — the state: two panels, the screen shown, clipboard, dialogs.
  - `event_handler` — the screens' key handlers and their specifications.
  - `file_operation`, `background_op` — listings, previews, metadata text,
    and the copy / move / delete work run on workers.
  - `listing` — parsers for `ls -l` / FTP `LIST` lines, SFTP attributes and
    the replies of the SSH commands of the SCP fallback.
  - `view` — everything the screen shows, as text and geometry.
  - `laws` — properties that relate several operations.
- `app/` — the terminal program: ratatui drawing, crossterm input, the
  backends that perform I/O (std, ssh2, suppaftp), worker threads and the
  settings file (serde, toml).
- `tests/` — tests of the library, run against in-memory filesystems.
