# Moonshine

A game-streaming host that clients reach over the GameStream protocol. Its rules
and decisions are written and verified in Verus; what talks to the machine is
ordinary Rust around them.

- `src/` is the verified library. `webserver`, `tls`, `crypto` and `digest` answer
  clients and check who they are; `application` and `service` describe, launch,
  watch and stop applications; `scanner` and `steam_app_id` find them;
  `compositor` decides on focus, popups, input and what is drawn; `control` reads
  input; `video` packs, paces and sends frames; `healthcheck`, `discovery`,
  `config` and `bench` do what their names say.
- `app/` holds files, sockets, process data, images and floating point, and the
  loops that drive services, gamepads, listeners and benchmarks.
- `tests/` runs the library with the outside crates it calls.

Times are in nanoseconds unless a name says otherwise. Windows, surfaces, clients
and buffers are known by numbers that the caller hands out.
