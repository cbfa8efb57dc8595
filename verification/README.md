# shared_consts

The verified core of a tool that shares one machine's mouse and keyboard with
other machines over UDP.

- `src/geometry.rs`: points, directions, and the sides of a screen rectangle.
- `src/screen.rs`: screen rectangles built from corners or dimensions, and the
  plain records exchanged at connection time.
- `src/protocol.rs`, `src/win_key_codes.rs`: command codes, key codes and the
  small datagrams of the connection handshake.
- `src/keyboard.rs`, `src/mouse.rs`: the steps of the server's keyboard and
  mouse hooks.
- `src/listener.rs`: how the listener reads a datagram.
- `src/replay.rs`: proofs that the key, button and wheel events the server
  forwards are replayed as the same events by the listener. Pointer moves
  (sent as `0xF0`) and the hand-over position (`0xF1`) are not: the listener
  reads them as unsupported key codes, and moves the pointer only on `0xFF`.
- `app/`: the two programs (`listener`, and on Windows `server`) around the
  library: sockets, hooks, the web view front end, serde and bincode. The
  front-end pages are read at run time from the paths that the original
  embedded at build time; those pages are not part of this crate.
