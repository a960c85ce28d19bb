# rmrk_token

Data model of an RMRK collection (nestable NFTs with multiple resources) for Gear
programs, with its state snapshots verified in Verus.

- `src/primitives.rs`: identifiers (`ActorId`, `TokenId`, ...) and `ChildStatus`.
- `src/collections.rs`: the hash maps and hash sets of the live state. Each holds a
  `gstd::collections` (hashbrown) collection out of Verus's sight; what it holds is named by
  an uninterpreted function, and each method states its effect on that name.
- `src/listing.rs`: what it means for a vector to list a set or a map (each element or key
  exactly once, walk order left open).
- `src/state.rs`: the live state (`RMRKToken`, `Nesting`, `MultiResource`), its snapshot
  (`RMRKState`, `MultiResourceState`) and the verified functions that take a snapshot.
- `src/laws.rs`: proved laws: a snapshot loses nothing, and two snapshots of one state differ
  at most in order.
- `src/messages.rs`: requests, replies, init parameters and resource entries.
- `app/`: SCALE-encodable twins of the wire types, conversions, and the `gmeta` metadata.
