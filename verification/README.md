# peerstate

The Autocrypt peer state of a messenger: what is known of one correspondent's
OpenPGP keys and encryption preference, and how the Autocrypt and gossip headers
of incoming messages update it. The library is written in Verus; every operation
has a contract over a mathematical view of the state, and the laws that hold
across operations are proved in `src/laws.rs`.

- `src/text.rs`: letter case of texts, string building.
- `src/key.rs`: fingerprints (20 bytes, upper-case hex text, parsing) and keys.
- `src/aheader.rs`: encryption preference and the Autocrypt header text.
- `src/peerstate.rs`: the peer state, its view and its operations.
- `src/store.rs`: the database row of a peer state and what saving writes.
- `src/laws.rs`: proved properties across operations.
- `app/`: the SQLite queries that read and write rows (`sqlx`).
