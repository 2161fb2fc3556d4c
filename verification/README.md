# r4dio

The verified core of a terminal radio player, written in Verus.

`src/` is the library; every function in it carries a contract that Verus
proves:

- `protocol` — playback status, player health, stations, and the
  length-prefixed frames of the client/daemon socket.
- `songs` — the song-recognition records and their tab-separated store:
  escaping, encoding, reading back, patching a row in place.
- `state` — playback state transitions, m3u station lists, and where the
  station list is looked for.
- `playback` — the playback status derived from what the player reports.
- `config`, `platform`, `proxy` — configuration defaults, per-user paths,
  helper-program search places, the daemon and proxy addresses.
- `nts`, `timefmt`, `text` — NTS show text, calendar-time formatting, and the
  character-level text operations the rest is specified with.
- `ui` — the client's reaction to actions (state changes and daemon
  requests), focus ring, pending intents, key bindings, sort orders and stable
  sorting, list filters and rows, the ICY and songs tickers, the NTS pane
  lines, file metadata panes, song-recognition requests, the client's
  ratings and histories, audio sample buffering, log-line compaction, word
  wrapping, latency telemetry.

`tests/` runs the library on concrete values. `app/` is a small command-line
front end that does the file, environment and serialisation work around the
library.
