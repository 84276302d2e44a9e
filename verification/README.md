# ratune

The logic of a terminal Subsonic/Navidrome client, as a library whose behaviour is stated
in `requires` / `ensures` contracts and proved with Verus.

- `src/` — the verified library:
  - `config.rs`: the `config.toml` sections, their defaults, and how settings words,
    secrets and environment overrides resolve; `settings.rs`: the whole configuration
    the player runs with (which table wins, defaults, clamped ranges).
  - `keybinds.rs`: key chords, how a key event matches one, and how `[keybinds]`
    strings become chords.
  - `jukebox.rs`: commands that carry out a remote-playback intent, request bookkeeping,
    and cursor preservation across server polls.
  - `instant_mix.rs`, `discovery.rs`: Instant Mix and Home shelves (newest, rediscover,
    mix seeds) with guarded requests whose late answers are dropped.
  - `session.rs`, `home.rs`, `browse.rs`, `playlists.rs`: what the running client does
    on each key or event (tab switches, the end and start of a track, the Home panels,
    filtered Browse columns and search, the playlists overlay), each as a function from
    state and event to next state and action; `jukebox_run.rs`: one remote operation as
    a state machine (read first, send in order, no retry, read back); `library.rs`:
    favorites (★) and ratings marked everywhere they are loaded, the server's favorites
    merged in, and the ratings Browse receives. Going offline and coming back, the
    startup ping, the radio station list, folder browse roots and the library index
    refresh are in `session.rs` and `browse.rs`.
  - `fzf_picker.rs`: fuzzy-picker arguments and output; `playback_error.rs`: short
    status lines for playback failures; `nav.rs`: tabs, columns and list movement;
    `track_order.rs`, `dedup.rs`, `media.rs`, `text.rs`: shared helpers and models.
  - Public `proof fn`s state the library's laws (cycles, idempotence, what a stale answer
    changes, what the Rediscover shelf may hold, …).
- `tests/` — tests run against the compiled library.
- `app/` — the program around it: reading `config.toml` (serde/toml), environment
  variables, running the password command and the fuzzy picker, terminal key
  conversion, status-bar text.
