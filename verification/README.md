# vortex

The logic of a multiplayer game backend, written in Verus and proved against its
contracts: accounts and their passwords, friends and wallets, game lobbies, the chess
record (FEN) that moves update, bets and their settlement, the outbox of game events, the
messages sent to the broker, the socket rooms and the realtime broker, and the expired-key
notifications that drive settlements.

Layout:

- `src/` — the verified library. Each request handler of the API is a step function: it
  takes what the stores answered so far and says what to do next, so every decision is
  verified while the reads and writes stay outside. Laws that span functions are public
  proof functions (`fen_laws.rs`, `api_error.rs`, `bets.rs`).
- `tests/` — tests on concrete values.
- `app/` — the game-state consumer: it reads consumed messages as JSON lines, decodes them,
  hands them to the library's steps and prints the store writes that result.
