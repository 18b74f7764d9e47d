# rust_servers

A verified core for a few small networked Rust programs and the language
exercises that go with them.

- `src/pool.rs`: the scheduler of a fixed-size worker pool (which job a worker
  runs, when it waits, when it stops), with its invariant and the laws of
  first-in-first-out dispatch and graceful shutdown.
- `src/http.rs`: extracting the request line and building the response of the
  hello-world HTTP server.
- `src/websocket.rs`: the decisions of the blocking and asynchronous WebSocket
  echo servers.
- `src/exercises/`: the text-producing logic of the exercises (traffic lights,
  employees, greeters, number parsing with typed and with `anyhow` errors).
- `src/text.rs`: decimal rendering.
- `app/`: the programs themselves: threads, sockets, the WebSocket protocol
  library, the async runtime, logging, files and printing.
