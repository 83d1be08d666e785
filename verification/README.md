# slox

A small package manager for macOS and Linux: it keeps packages in a store
under the home directory, builds them with each package's `build` script,
and installs the binaries into the active environment, which users switch
between with `slox env set <name>`.

The library under `src/` holds the logic, verified with Verus:

- `text`, `paths`: strings and store paths, with their specifications;
- `pkg`: package specs (`name@sloxpkgs`, `owner/repo@github`);
- `env`, `activate`, `shim`, `term`: the active-environment record,
  activation lines and scripts, shim scripts, terminal lines;
- `building`: a package's `build.toml` (build script, built binary and
  installed name, each optional), read by a verified parser, and build
  reports. The parser takes a subset of TOML: one `key = "value"` per line
  with a plain double-quoted value, blank lines and `#` comment lines;
  escapes, single-quoted strings, tables and trailing comments are refused;
- `protocol`, `phase`, `rules`, `session`: a command as a state machine. The
  session never touches the file system itself: each step names one action
  (read, write, build, clone, ...), and the caller answers it with an event.
  `rules` states each step as a spec function and `session` implements it;
- `laws`: properties of whole commands, proved against a model file system
  in both modes: switching environments, installing into the active one,
  removing it, removing packages, and the shim directory mirroring the
  active bin directory after each of them (and after a second refresh).

`app/` is the command-line program around it: argument parsing, the
file-system and git work that answers each action, and the progress
spinner.
