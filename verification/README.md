# agenthub

The verified core of the agenthub service, written in Verus, and the
program around it.

- `src/` is the library. Every function in it carries a contract that Verus
  proves: configuration defaults and derived values (`config`,
  `config_lists`), start-up checks and the configuration report (`startup`),
  the daemon's task phases, instance lock and executable lookup
  (`daemon_tasks`, `daemon_lock`, `daemon_binary`), history retention
  (`history`), the pending WebAuthn ceremonies and login decisions (`auth`),
  the checks and error answers of the team, loop and upload endpoints
  (`team_errors`, `loops`, `uploads`, `api_error`), team member contexts and
  mailbox prompts (`actor_context`, `mailbox`), and the command line's error
  report (`cli_error`), team task requests (`team_tasks`), and the database's
  place (`database`). `text` and `paths` model the string and path
  operations the rest relies on. Properties that span several functions are
  stated and proved as `law_*` proof functions.
- The calls into `std` (string and path operations), `base64`, `sha2` and `anyhow` that the library
  makes go through small trusted wrappers, each documented with what its
  contract claims.
- `tests/` exercises the library with concrete values.
- `app/` is the program: argument parsing with clap, reading the TOML
  configuration, logging, the tokio task group and shutdown, and the file
  lock of a daemon instance.
