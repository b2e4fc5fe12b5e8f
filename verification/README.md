# moq

Media over QUIC: the logic of a session between two endpoints, of the objects
that a track retains, and of a relay that connects publishers to subscribers.
It is written in Verus, and every function of `src/` is verified against its
contract.

## What is where

- `src/coding`, `src/data`, `src/message`: integers, key-value pairs, names,
  datagrams and messages, and how they stand on the wire. What is written is
  read back.
- `src/serve`: tracks that are written and read, and `serve::cache`, a bounded
  store of complete objects with snapshots that pin what they show.
- `src/session`: a session. `path` and `setup` are how it starts; `publisher`,
  `subscriber` and `control` take the messages of the peer; `bidi` is the life
  of a request stream and `response` the layout of what comes back on it;
  `subscribe`, `subscribe_recv`, `subscribed`, `serving` and `receiving` are
  the two ends of a subscription; `limits` bounds what a peer can cause.
- `src/relay`: what a relay can be started with (`config`, `launch`), how it
  listens (`listener`), whom it admits (`policy`, `admission`) and for how long
  (`lease`).
- `src/scenarios.rs`: what scenarios that test a relay look for.
- `app`: the program around the library: command line, transport, tasks, and
  the reading and writing that the library asks for.
- `tests`: tests of the library.

Nothing in `src/` reads or writes a stream, sleeps or waits. Where such work and
decisions take turns, a type of the library holds the state: it takes what
happened, and says what to do next.

A few functions of `bytes`, `tokio`, `url` and the standard library are called
behind contracts that are not proved. Each says so in its doc comment.
