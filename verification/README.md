# primare_i22

A REST bridge for the Primare I22 integrated amplifier's RS232 port. The
library under `src/` is verified with Verus; `app/` is the HTTP server and the
serial I/O around it.

- `src/protocol.rs` – frame building (`<STX> <CMD> <VAR> [<VALUE>] <DLE> <ETX>`,
  DLE doubled as data), reply parsing, and `FrameReader`, which finds the end of
  a frame in the incoming bytes. Proved: parsing a built frame gives its payload
  back, and a built frame ends exactly at its last byte.
- `src/commands.rs` – the command table and `CommandSpec::frame`.
- `src/device.rs` – the sans-I/O connection logic: the frame each operation
  sends (with its parameter checks) and what a reply, a timeout or an I/O
  failure means for the result, the cached power state and the link. Proved:
  the cached power state is always what the last operation that told anything
  about the power said (`law_get_power`).
- `src/api.rs` – request and response types of the HTTP API and the operation
  each request asks for.
- `src/error.rs` – errors, whether they call for a reconnect, and their HTTP
  status codes.
- `app/` – axum routes, the tokio serial port, connection management.
