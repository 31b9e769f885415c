# waydraw

Verified core of a tool that lets one machine drive the mouse of another over
a peer-to-peer connection.

- `src/` is the library, verified with Verus:
  - `bytes`: big-endian 32-bit integers;
  - `protocol`: the instruction messages (server information, mouse move,
    mouse click) and their parser;
  - `framing`: length-prefixed messages on a stream;
  - `line`: newline-delimited text messages on a stream;
  - `key_store`: the table of pins to peer keys behind the key server;
  - `window`: the state machine of the server's window and the mouse loop's
    decisions.
- `tests/` runs the library on concrete values.
- `app/` is the key server program (axum) and the iroh transport that carries
  the library's frames and lines.
