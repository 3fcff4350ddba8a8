# pow

POW — PHP One-click Workspace: an ultra-minimal PHP development environment
(PHP + SQLite/MariaDB) driven from the command line. The library is written
in Verus: its contracts state what each operation returns and Verus proves
them.

## Layout

- `src/` — the verified library.
  - `text.rs`, `decimal.rs` — character-level string operations and decimal
    numerals (rendering, and parsing the way `str::parse::<u32>` does).
  - `php.rs` — PHP version normalization (`php@8.2`, `PHP-8.2`, `8.2.20` →
    `8.2`), the pinned patch releases and download-URL resolution.
  - `db.rs` — the MariaDB download URL.
  - `config.rs` — the configuration model and every path of the `~/.pow`
    layout.
  - `utils.rs` — the pid-file format and the process commands.
  - `commands/` — the decision each command takes (which server to start,
    what a switch changes, where a backup goes, how a version is installed,
    what `pow ls` lists).
- `app/` — the `pow` program: command-line parsing, configuration file I/O,
  downloads, processes and terminal output around the library.
- `tests/` — tests of the library.
