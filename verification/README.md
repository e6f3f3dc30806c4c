# caisson

An offline updater for predefined Docker services on air-gapped devices: it
validates a local `.edgepkg` package, loads its image into Docker, replaces the
target service, checks its health, rolls back when the update does not stay
healthy, and keeps a local history of what happened.

## Layout

- `src/` is the library, verified with Verus. It holds every decision the
  updater makes:
  - `config`: the service catalog rules;
  - `archive`, `manifest`, `intake`: package structure, manifest parsing and
    the validation attempt as a step machine, with its laws;
  - `import`: the image import as a step machine, with its laws;
  - `update`: the update and rollback state machine, with its laws;
  - `health`: health evaluation of the containers behind a service;
  - `compose`: reading a Compose file and the one-service override;
  - `flow`: the `package validate` / `package load` command as a sequence of
    decisions;
  - `report`: every line the command line prints;
  - `persistence`: where records live under the state directory, and which
    leftover package workspaces `package cleanup` removes;
  - `text`, `ids`, `clock`, `version`, `domain`, `audit`: shared values.
- `app/` is the `caisson` command: argument parsing, files, tar reading,
  Docker (through `bollard`), `docker compose`, JSON and TOML, and the loops
  that perform what the library asks for.
- `tests/` exercises the library on concrete scenarios.
