# Signal Vault

A sealed-bid marketplace primitive for the Tari Ootle: pay to unlock, verify after expiry. A provider
seals a payload and a nonce behind a BLAKE2b commitment, sells access badges until the reveal epoch,
and from then on anybody who holds payload and nonce can open the commitment.

* `src/` is the library, verified with Verus: the commitment, and the rules of publishing, selling,
  opening and paying out. `src/state.rs` holds the model that the contracts speak of, `src/history.rs`
  what holds over the whole life of a vault.
* `app/` is the template itself: it keeps the state on the ledger, moves the tokens, and asks the
  library what is to happen. What a confidential proof moves only the ledger knows, so there the
  ledger is asked first. A call that the library refuses is undone by the ledger as a whole.
* `tests/` runs the library, together with the hash function and the ledger's types that it uses.

Two functions are trusted: `blake2b_digest` in `src/commitment.rs`, which calls `blake2`, and
`hash_to_string` in `src/hash.rs`, which calls `tari_template_lib`. That BLAKE2b has no known
collisions is not proved and not assumed: the library proves that opening one commitment in two ways
would exhibit one.
