# mcsmp_rs

A client for the Minecraft Server Management Protocol (MCSMP): JSON-RPC 2.0
over a WebSocket, with typed resource APIs, capability discovery and typed
notification streams.

The crate is split in two:

- `src/` is the core, proved with Verus: protocol versions and
  discovery schemas, the JSON model, request/response models and their JSON
  forms, IP addresses, notification normalization and decoding, JSON-RPC
  message classification, client configuration and handshake headers, the
  registry of calls in flight, and the decisions of a connection session
  (call admission, inbound frames, the end of a session, shutdown and the
  reconnect supervisor).
- `app/` is the Tokio runtime around it: it opens sockets, runs the reader,
  writer and reconnect tasks, converts between `serde_json` and the core's
  JSON values, and exposes the asynchronous `Client` and its resource
  handles. Each task asks the core what to do and performs the I/O.

`tests/` runs the core on concrete inputs.
