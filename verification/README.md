# sacp_connection

The client side of a connection to an ACP agent that runs as a subprocess.

The verified library under `src/` decides: what is answered to the agent's requests for terminals,
files and permissions, what becomes of the handshake, and what the connection knows of its session.
It does no I/O. A request that takes several steps is a value that names the next step and takes in
what came of it; one that gets an event it does not wait for stays as it is.

| module            | subject                                                           |
| ----------------- | ----------------------------------------------------------------- |
| `text`            | decimal numerals, UTF-8 lengths, tails of texts                   |
| `path`            | Unix paths as byte strings                                        |
| `location`        | where a path leads that is not all there yet                      |
| `rpc`             | JSON-RPC errors and request ids                                   |
| `error`           | errors that the connection's callers see                          |
| `terminal`        | output and exit status of a terminal, the table of terminals      |
| `terminal_create` | the creation of terminals and the reading of their output         |
| `terminal_call`   | killing, releasing, reading and awaiting a terminal               |
| `files`           | reading and writing text files, and where writing is allowed      |
| `approval`        | permission requests                                               |
| `handshake`       | the agent's command line and the initialization                   |
| `process`         | the end of the agent's process group                              |
| `connection`      | session, models and config options, and the requests to the agent |

`app/` starts processes, holds locks and channels, and carries out the steps. It is for Unix.
