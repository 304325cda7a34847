# podcast_tui

A terminal podcast player (`podi`). The crate is a Verus library: the parts
that decide and compute are proved against their contracts; the terminal,
network, file and mpv process handling live in `app/`.

- `src/text.rs`: characters, white space, trimming, decimal numbers.
- `src/rss/`: feed and episode types, reading RSS documents (through the
  `rss` crate), `itunes:duration` values, HTML stripping, merging refreshed
  episodes while keeping what is known locally.
- `src/player.rs`: playback state, the mpv IPC commands as JSON lines, the
  effect of mpv's events.
- `src/app.rs`, `src/events.rs`: the application state, the key bindings, and
  what every action does — the new state and the outside work to carry out.
- `src/download.rs`, `src/config.rs`: download file names, settings.
- `src/ui/`: the texts, rows and window sizes the interface draws.
- `src/laws.rs`: properties relating several operations.
- `app/`: `main`, terminal drawing with ratatui, HTTP with reqwest, mpv over
  its Unix socket, the configuration file.

Units inside the library: times in milliseconds since the Unix epoch,
playback positions in milliseconds, speed in hundredths, identifiers as the
128-bit values of UUIDs, download progress as byte counts.
