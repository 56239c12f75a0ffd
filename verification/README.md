# transaction

The publishing logic of a trie-backed data service, verified with Verus.

- `src/` is the verified library: the request and record types, the record
  hashes (SHA-256 written in Base58), the error texts, and `publish::Publish`,
  the decisions of publishing a request as a state machine: it takes the
  answers of the outside world (key type, trie replies, parsed records,
  signature check, clock) and says what to do next. `src/laws.rs` states
  properties of every run.
- `src/base58.rs` states the Base58 text that hashes are written in and
  proves it injective, from the Bitcoin alphabet, and 32 to 44 characters
  long for a 32-byte digest. `src/result.rs` reads the trie host's output.
- `app/` is the service module: it performs the host calls, parses and
  writes JSON, reads the clock and drives the state machine.
