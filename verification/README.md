# aery

The verified core of a League of Legends match-history viewer, written in Verus.

- `src/` — the library. Accounts and Riot IDs, games and players (built from the
  match API's fields), teams, ranked leagues, asset ids, the queue filter and name
  shortening of the profile screen, the summary of recent games (wins, best role,
  best champions), the texts the viewer shows, the worker's request paths, and the
  framing of stored data. Calls into `riven` and `lz4_flex` stand behind small
  trusted wrappers in `src/riot.rs` and `src/frame.rs`.
- `tests/` — tests of the library on concrete values.
- `app/` — plain Rust around the library: reading `riven`'s API models into the
  library's values, the `bitcode` encoding of summoner data and game maps, and the
  texts that need floating point or the clock.

A game map is keyed by game id, a `String`. With `String` keys, Verus could not
prove even that one insertion into an empty `std::collections::HashMap` leaves one
entry (it does with integer keys), so `game::GameMap` keeps its entries in a `Vec`
whose ids are distinct, a type invariant, and offers the same operations with their
view as a map from id to game.
