# abs_party

The room bus of a synchronised audiobook listening party for Audiobookshelf,
written in Verus: one listener controls playback, the others follow.

- `src/` is the verified library: room ids, rooms and host hand-over
  (`room`), the map of open rooms and the operations on it (`hub`), the step
  taken for each websocket message (`session`), the proxy allowlist and URL
  building (`proxy`), settings (`config`), and laws that hold across
  operations (`laws`). Playback positions and rates are carried as their
  IEEE-754 binary64 encodings.
- `app/` is the server around it: HTTP routes, the websocket loop, the calls
  to Audiobookshelf and the JSON forms of the messages.
- `tests/` runs the library on concrete rooms and requests.
