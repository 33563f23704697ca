# mcs

The decisions of a modular chess server, verified with Verus.

The server runs games of any chess variant: it pairs players, keeps their clocks,
owns each live game on one node of a cluster, logs every accepted action so that a
game survives a restart, shows games to spectators, and can put a price on a
request. What it decides is in this library, and each function states in its
contract exactly what it decides.

## Layout

| Module | What is in it |
|--------|---------------|
| `variant` | sides, JSON payloads, outcomes, the `GameSession` and `VariantFactory` traits, the registry of variants |
| `domain` | identifiers, addresses, users, seeks, challenges, games, time controls, clock snapshots |
| `game` | the clock engine, matchmaking, the actor of a live game, recovery from the action log |
| `cluster` | rendezvous ownership of games, node membership, bus channels |
| `payments` | x402 wire types, payment keys, verifiers, the paywall |
| `rating`, `observability` | scores, log configuration, request identifiers |
| `text`, `time`, `table` | strings, spans and instants, a table under fixed names |

`app/` is the runtime around it: tasks, channels, HTTP layers, Redis, JSON encoding
and the floating-point ratings. It performs what the library decides and hands the
results back.

## What is proved

Beside the contracts, each module states laws as public proof functions, among them:

- nobody is booked for two games, and seeks are paired on terms that both hold;
- only the running clock flags, exactly at its deadline, and a pause costs nobody time;
- an accepted action is logged once and in order, the log mirrors what the session
  played, and a finished game is stored once, before the completion hook runs (its
  update is broadcast and its frame published before that);
- a game rebuilt from its log shows and answers what the lost one did, where its
  record of play decides that, and its clocks go on without the time in between;
- when a node leaves, only its own games change hands;
- a payment is known by a printable key that does not depend on the order of its JSON
  keys, and of requests that come one after another only the first is charged for it;
- a JSON value can be told from its text, so that different payments are hashed from
  different bytes.

## What is trusted

Random UUIDs, their text and their parsing (`uuid`), Base64 (`base64`), SHA-256
(`sha2`), the quoting of JSON strings (`serde_json`), RFC 3339 texts (`time`), and a
few functions of the standard library are called through wrappers. Their doc comments
say what is taken for granted of each. Variants implement `GameSession`; what is proved
of a game holds for variants that keep that trait's contract.
