# mcp-pool

A pool of MCP (Model Context Protocol) servers: each configured server runs once,
as a single upstream, and many agent clients share it over a local socket, with
JSON-RPC requests multiplexed by `id`.

## Layout

- `src/` is the library, verified with Verus. It computes on plain values: what a
  command decides, what it prints, which message goes to which client, which step
  follows when a socket is bound or a daemon is reached.
  - `text`, `names`, `json`: texts, maps by name, JSON values. JSON text is written
    and read by `serde_json`.
  - `jsonrpc`, `mcp_session`, `pending`, `multiplexer`: request ids, the handshake
    cache, requests that are owed an answer, and the traffic between clients and an
    upstream.
  - `socket_proxy`, `pool`, `upstream`, `types`: what is known of pooled servers.
  - `config`, `control`, `diagnostics`, `transport`, `proxy`, `cli`: configuration and
    paths, the control protocol, logging, binding, the stdio bridge, the commands.
- `app/` is the program: arguments, files, sockets, processes, and the copies of
  library types that carry `serde` and `clap` derives.
- `tests/` runs the library.

## What is trusted

Contracts that are believed rather than proved are those of `serde_json`'s value type
and of the functions that build, take apart, copy, write and read it (in `json`), of
`String::push` (in `text`), and the declaration of `std::time::Instant`, which is only
carried along (in `mcp_session`).
