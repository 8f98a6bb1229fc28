# cider_mpris

A bridge that shows the Cider music player to the desktop as an MPRIS
media player on D-Bus.

- `src/` is the library, verified with Verus:
  - `cider/`: the Cider RPC endpoints and their URLs, the records Cider
    answers with, and how the now-playing answer is read;
  - `mpris/`: the player state and its MPRIS properties (status, loop
    status, shuffle, interpolated position, seek targets), the metadata map,
    and the root interface;
  - `bridge.rs`: the polling loop's decisions, as transitions from what the
    loop remembers and the player state to the signals to emit and the bus
    name to request or release, with the laws they keep.
- `app/` is the program: HTTP requests to Cider (reqwest, serde), the D-Bus
  interfaces and signals (zbus), and the loop itself (tokio).
- `tests/` exercises the library on concrete values.

The program reads `CIDER_RPC_TOKEN` from the environment or a `.env` file.
