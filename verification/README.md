# RedLine clients

The clients of an intercom for productions: the desktop client, bridges between the
intercom and production audio, the launcher of those bridges, push buttons and tally
lamps on small computers, and the settings and windows around them.

- `src/` is the library `redline`. It holds what the clients decide, compute and keep:
  endpoints and settings, routing and buttons, the control connection, the playback
  buffer, frames and packets, the local interface, bridge routes and their state. Every
  function states what it does, and Verus proves it. Properties that relate several
  functions stand beside them as public proof functions.
- `app/` is ordinary Rust around the library: command lines, files, sockets, audio
  devices, NDI, web pages, and the signal processing in floating point.
- `tests/` runs the library on concrete values.

The library computes on plain values. What a program reads from the network, from a
file or from a device comes in as an argument, and what it is to send, write or play
goes out as a result.

A few functions of other crates and of the standard library are called from `src/`
behind declarations whose contracts are taken as given: UUIDs, Base64, JSON, UTF-8 and
lower-case text. Each of them says what is claimed of it.

The byte formats of the control connection and of audio packets belong to the protocol
that clients and server share. `app/wire.rs` names what a program needs of it.
