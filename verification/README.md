# process_priority_enforcer

A Windows utility that keeps selected applications at configured CPU, I/O and
power priorities, split into a verified library and a thin program around it.

- `src/` (the verified library)
  - `text.rs`: ASCII case-insensitive comparison, blank-text check, UTF-16 decoding.
  - `util.rs`: the platform's path separator, and normalisation of path patterns (`/` and `\` accepted,
    repeated separators merged).
  - `priority.rs`: CPU/I/O/power priorities, their case-insensitive configuration names,
    and the ordered list of changes that applying a group's priorities makes.
  - `process.rs`: processes, and names read from NUL-padded UTF-16 buffers.
  - `glob.rs`: compiled globs and glob sets, kept with the patterns they were built from.
  - `config.rs`: configuration types, glob compilation, first-matching-group selection,
    and the decisions and messages of configuration loading.
  - `monitor.rs`: when the configuration watcher reloads, and the step-by-step handling
    of one process.
- `app/`: the program: Win32 calls, WMI process notifications, file watching,
  JSON deserialisation and logging.
- `tests/`: tests of the library.
