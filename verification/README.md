# dd_ftp

A dual-pane terminal client for SFTP, FTP and FTPS, built around a library
whose logic is proved with Verus.

- `src/` is the verified library: text fields, the `ls -l` listing parser,
  pane filtering and sorting, path guards, the transfer queue, the UI state
  reducer, the folder-transfer drain, key decisions, saved sites, themes,
  mouse hit testing and the small text helpers they share. Each public
  function states what it returns in `ensures`; the `law_*` proof functions
  state properties that span calls.
- `tests/` runs the library on concrete values.
- `app/` is the program around it: the terminal (crossterm, ratatui), the
  file system, the network (ssh2, async_ftp), the keyring and the TOML/YAML
  files. It turns events into library calls and carries out the commands the
  library decides on.
