# widots

A dotfile manager: it links a directory of dotfiles into the home directory,
turns such links back into files, runs configuration and run files, and
drives Homebrew, the fish shell, Fisher, the VS Code command line and its own
deployment.

- `src/` is the verified library. It holds every decision the manager makes:
  the path model (components, joining, prefixes, `~` expansion), the rules for
  which files are linked, the plan for each directory entry of a link or
  materialize run, the reading of run files and command lines, the commands
  each operation issues, and the messages and errors it reports. Each public
  function states its result in its contract; the laws (round trips,
  idempotence, mirroring of the source tree) are proof functions.
- `app/` is the program around it: it reads the command line, sets up the
  log, and performs the file system walks, process runs and prompts that the
  library's plans call for.
- `tests/` exercises the library on concrete values.
