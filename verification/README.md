# zico_limbo

The verified core of a Minecraft queue server: players wait in a queue, see their
position on the tab list, title, action bar and boss bar, and are pushed on to the
main server from the front of the queue.

- `src/queue`: the queue itself (`QueueState`), placeholder filling for display texts
  (`placeholder`), and the display elements of a refresh (`queue_display` for the
  in-place boss bar style with a separate action bar tick, `full_refresh` for the
  style that redraws everything).
- `src/configuration`: the queue configuration and its defaults.
- `src/server`: the decisions of a client connection (`session`), and of packet
  follow-ups, error classification, kicking, transferring and keep-alives (`network`).
- `src/protocol.rs`: protocol versions and connection states.
- `app/`: the asynchronous server around the library: the shared queue behind a lock,
  serde copies of the configuration, packet rendering through the protocol crates,
  and the client loop that carries out the library's decisions.
