# prism_client

The client side of the PRISM remote-desktop viewer, as a Verus-verified
library (`src/`) with a thin program around it (`app/`).

`src/` holds the logic, each function with a contract that Verus checks:

- `frame_stream`, `frame_stats`, `stream_view`: the length-prefixed frame
  stream, datagram headers (encoding, decoding, input and control
  datagrams, probe echoes, heartbeats), plane packing, frame statistics,
  the cursor crosshair, mouse-button edges and the reconnect policy.
- `config`, `cli`: command-line parsing for the launcher and for the
  streaming client, user preferences.
- `servers`, `profiles`, `server_form`, `profile_editor`: saved servers and
  streaming profiles as in-memory stores driven by an append-only log,
  with the launcher's server form and profile editor on top.
- `session`, `ui_state`, `actions`, `overlay`, `display`, `launcher`:
  session messages and the choices made when connecting, the UI state
  machine with the Control double-tap overlay toggle, action routing,
  the overlay capsule and display panel, and launcher presentation
  (filters, statuses, recency order, keyboard focus).
- `client`: the application's state and its answer to each user action,
  with the effects (dial, persist, send to the host) left to the caller.
- `shell`, `cards`, `settings`, `panels`: the launcher shell (tabs, modal
  layer, focus, server form), the saved-host cards and grid, the settings
  page, and the stats bar with the quality and connection panels.
- `text_input`, `dropdown`, `switches`, `widgets`, `text`: widget state
  and shared value types.
- `platform`: the clock and UUID sources.

`app/` is the streaming client binary: QUIC connection, Noise handshake,
H.264 decoding, the window loop, file persistence, and the helpers that
compute in floating point.
