# bedrockd

A daemon that runs a Minecraft Bedrock dedicated server, tracks the players
online from its console, and backs up its world on schedules; plus a small
terminal front end.

- `src/` is the library, verified with Verus: configuration defaults, backup
  schedules and waiting times, the console parsing (player ids, the file list
  of `save query`), the backup task as a state machine, archive names,
  listing and pruning, the management answers, and the front end's state.
- `app/` is the program around it: process and file I/O, the async runtime,
  the command line, TOML configuration, tar/gzip archives and the terminal.
- `tests/` runs the library on concrete values.
