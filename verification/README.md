# caimanager

A manager for long-running application instances (for example game
servers): it registers instances, starts their programs, passes commands to
their standard input, stops or kills them, restarts crashed ones, keeps the
tail of their output, and serves all of this over an authenticated HTTP API.

`src/` is the verified library (Verus):

- `info` – instance descriptions, listing rows, defaults.
- `instance` – one instance's state and its start/execute/halt decisions.
- `registry` – the name-keyed registry and its model (`map_of`).
- `operations` – create, start, stop, halt, execute, remove, update, load,
  list, keep-running sweep, each with an exact model.
- `broker` – one request in, the registry change and the action out.
- `log_buffer` – the bounded output log, cut at character boundaries.
- `history` – the bounded history of resource samples.
- `http` – replies, authorization, websocket texts.
- `config`, `system_info` – settings and machine description.
- `laws` – properties that span operations.

`app/` is the program around it: the tokio broker loop that performs the
actions (spawning, writing, killing, file I/O), the axum routes, and system
sampling.
