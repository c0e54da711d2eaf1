# majsoul_max_rs

The verified core of a Mahjong Soul traffic modder: it rewrites the game's
messages so that the client shows every character, skin, title and item,
keeps the player's own choices in a local settings file, and keeps the
protocol data up to date.

`src/` is verified with Verus:

- `settings`: the general and Mod settings and the values derived from them
  (default skins, the preset in use, the GitHub prefix, update intervals).
- `max_data`: the parser of `max_data.yaml`, the inventory of known ids.
- `modder`: the rules by which requests, responses and notifications are
  rewritten, over decoded plain values.
- `frame`: the websocket frame header and envelope checks.
- `descriptor`, `update`: the decisions of a protocol-data update.
- `schedule`: the periodic update-check deadline.
- `ids`: zone tags, record-link encodings and the game-record log.
- `connections`: a connection's pending requests.
- `sidebar`: the settings sidebar's state and how its changes are routed.
- `raster`: the integer pixel arithmetic of the sidebar's renderer.
- `text`: the string helpers the rest is written with.

`app/` is the unverified host: the settings files (serde), the debug log,
the update loop, and the reading of captured frames (`--frame`) through
the prost envelope. The intercepting proxy and the window are not part of
it, so the Mod worker it prepares is not fed game requests here.
`tests/` runs the library on concrete values.
