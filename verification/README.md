# canis

A timestamping system for research data. `canis` watches file operations
(through the platform's change notifications or a pass-through FUSE mount),
records the SHA-256 digest of each created, modified or moved file in an
SQLite database, and publishes a daily hash over the day's evidence to a
GitHub repository.

## Layout

- `src/` — the verified library (Verus). The decisions of every command live
  here with their contracts: event conversion and lowering, the recording of an
  event as a state machine, the backward search of the log, the inode and
  file-handle tables of the FUSE mount, the daemon shutdown, configuration
  resolution, the daily hash, and the rendered configuration and service files.
  Calls into `url`, `sha2`, `hex`, `base64`, `chrono` and `serde_json` go
  through small trusted wrappers whose contracts state what those crates do.
- `tests/` — tests of the library on concrete values.
- `app/` — the `canis` command: argument parsing (`clap`), prompts
  (`dialoguer`), the configuration file (`toml`), the database (`rusqlite`),
  the watchers (`notify`, `fuser`), signals and the daemon, and HTTP (`ureq`).
  It performs the I/O the library asks for and hands the outcomes back.
